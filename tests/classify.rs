use ruma_events::call::{SessionDescription, SessionDescriptionType};
use ruma_events::collections::all::{Event, RoomEvent, StateEvent};
use ruma_events::collections::only;
use ruma_events::event_type::{EventType, Level};
use ruma_events::events::{DecodeError, KnownEvent};
use ruma_events::ids::{check_event_id, check_room_id, check_user_id};
use ruma_events::json::Json;
use ruma_events::member::{MemberEventContent, MembershipState, SignedContent, ThirdPartyInvite};
use ruma_events::stripped::StrippedState;
use ruma_events::typing::TypingEventContent;

fn s(v: &str) -> Json {
    Json::Str(v.to_string())
}

fn obj(entries: Vec<(&str, Json)>) -> Json {
    Json::Object(entries.into_iter().map(|(k, v)| (k.to_string(), v)).collect())
}

fn same(a: &Json, b: &Json) -> bool {
    format!("{:?}", a) == format!("{:?}", b)
}

fn member_doc(content: Json) -> Json {
    obj(vec![
        ("type", s("m.room.member")),
        ("event_id", s("$h29iv0s8:example.com")),
        ("room_id", s("!n8f893n9:example.com")),
        ("sender", s("@carl:example.com")),
        ("state_key", s("@carl:example.com")),
        ("content", content),
    ])
}

fn join_content() -> Json {
    obj(vec![("membership", s("join")), ("displayname", s("Carl"))])
}

fn custom_doc(with_state_key: bool, with_room_fields: bool) -> Json {
    let mut entries = vec![("type", s("x.custom")), ("content", obj(vec![("a", Json::Bool(true))]))];
    if with_state_key {
        entries.push(("state_key", s("a")));
    }
    if with_room_fields {
        entries.push(("event_id", s("$e:example.com")));
        entries.push(("room_id", s("!r:example.com")));
        entries.push(("sender", s("@u:example.com")));
    }
    obj(entries)
}

#[test]
fn member_event_round_trips_through_every_level() {
    let doc = member_doc(join_content());
    let original = format!("{:?}", doc);
    let event = Event::from_json(doc).unwrap();
    assert!(matches!(event, Event::RoomMember(_)));
    let again = Event::from_json(event.into_json()).unwrap();
    match &again {
        Event::RoomMember(e) => {
            assert!(matches!(e.kind, EventType::RoomMember));
            assert_eq!(format!("{:?}", e.json), original);
        }
        other => panic!("unexpected {:?}", other),
    }
    let room = RoomEvent::from_json(again.into_json()).unwrap();
    assert!(matches!(room, RoomEvent::RoomMember(_)));
    let state = StateEvent::from_json(room.into_json()).unwrap();
    assert!(matches!(state, StateEvent::RoomMember(_)));
    assert_eq!(format!("{:?}", state.into_json()), original);
}

#[test]
fn known_event_lifts_into_each_union() {
    let known = KnownEvent::from_json(member_doc(join_content())).unwrap();
    assert!(matches!(Event::from_known(known), Event::RoomMember(_)));
    let known = KnownEvent::from_json(member_doc(join_content())).unwrap();
    assert!(matches!(RoomEvent::from_known(known), RoomEvent::RoomMember(_)));
    let known = KnownEvent::from_json(member_doc(join_content())).unwrap();
    assert!(matches!(StateEvent::from_known(known), StateEvent::RoomMember(_)));
}

#[test]
fn every_registered_tag_resolves_to_its_kind() {
    let tags = [
        "m.call.answer", "m.call.candidates", "m.call.hangup", "m.call.invite", "m.presence",
        "m.receipt", "m.room.aliases", "m.room.avatar", "m.room.canonical_alias", "m.room.create",
        "m.room.guest_access", "m.room.history_visibility", "m.room.join_rules", "m.room.member",
        "m.room.message", "m.room.name", "m.room.power_levels", "m.room.redaction",
        "m.room.third_party_invite", "m.room.topic", "m.tag", "m.typing",
    ];
    for tag in tags.iter() {
        let t = EventType::from_tag(tag);
        assert!(t.is_known(), "{}", tag);
        assert!(t.kind_level().is_some());
        assert_eq!(t.to_tag(), tag.to_string());
    }
    let custom = EventType::from_tag("x.custom");
    assert!(matches!(&custom, EventType::Custom(c) if c == "x.custom"));
    assert!(custom.kind_level().is_none());
    assert_eq!(EventType::from_tag("m.typing").kind_level(), Some(Level::Basic));
    assert_eq!(EventType::from_tag("m.room.message").kind_level(), Some(Level::Room));
    assert_eq!(EventType::from_tag("m.room.topic").kind_level(), Some(Level::State));
}

#[test]
fn registered_tag_never_decodes_as_custom() {
    let doc = obj(vec![("type", s("m.presence")), ("content", obj(vec![]))]);
    assert!(matches!(Event::from_json(doc).unwrap(), Event::Presence(_)));
    let doc = obj(vec![("type", s("m.presence"))]);
    assert!(matches!(Event::from_json(doc).unwrap(), Event::Invalid(_)));
}

#[test]
fn member_without_membership_falls_back_to_invalid_state() {
    let content = obj(vec![("displayname", s("Carl"))]);
    match Event::from_json(member_doc(content)).unwrap() {
        Event::InvalidState(e) => {
            assert!(!e.error.is_empty());
            assert!(e.error.contains("membership"));
        }
        other => panic!("unexpected {:?}", other),
    }
    let content = obj(vec![("displayname", s("Carl"))]);
    assert!(matches!(RoomEvent::from_json(member_doc(content)).unwrap(), RoomEvent::InvalidState(_)));
    let content = obj(vec![("displayname", s("Carl"))]);
    assert!(matches!(StateEvent::from_json(member_doc(content)).unwrap(), StateEvent::InvalidState(_)));
}

#[test]
fn invalid_fallback_keeps_the_document() {
    let doc = member_doc(obj(vec![("membership", s("wandering"))]));
    let original = format!("{:?}", doc);
    let event = Event::from_json(doc).unwrap();
    assert!(matches!(event, Event::InvalidState(_)));
    assert_eq!(format!("{:?}", event.into_json()), original);
}

#[test]
fn custom_with_state_key_and_room_fields_is_custom_state() {
    assert!(matches!(Event::from_json(custom_doc(true, true)).unwrap(), Event::CustomState(_)));
    assert!(matches!(RoomEvent::from_json(custom_doc(true, true)).unwrap(), RoomEvent::CustomState(_)));
    assert!(matches!(StateEvent::from_json(custom_doc(true, true)).unwrap(), StateEvent::CustomState(_)));
}

#[test]
fn custom_routing_by_shape() {
    assert!(matches!(Event::from_json(custom_doc(false, true)).unwrap(), Event::CustomRoom(_)));
    assert!(matches!(Event::from_json(custom_doc(false, false)).unwrap(), Event::Custom(_)));
    assert!(matches!(RoomEvent::from_json(custom_doc(false, true)).unwrap(), RoomEvent::CustomRoom(_)));
    assert_eq!(
        RoomEvent::from_json(custom_doc(false, false)).unwrap_err(),
        DecodeError::UnknownTagStructuralMismatch
    );
    assert_eq!(
        StateEvent::from_json(custom_doc(false, true)).unwrap_err(),
        DecodeError::UnknownTagStructuralMismatch
    );
    assert!(matches!(only::Event::from_json(custom_doc(true, true)).unwrap(), only::Event::Custom(_)));
    assert!(matches!(
        only::RoomEvent::from_json(custom_doc(true, true)).unwrap(),
        only::RoomEvent::CustomRoom(_)
    ));
}

#[test]
fn state_event_decodes_the_same_at_every_level() {
    let docs = vec![
        member_doc(join_content()),
        member_doc(obj(vec![])),
        custom_doc(true, true),
    ];
    for doc in docs {
        let text = format!("{:?}", doc);
        let state = StateEvent::from_json(doc).unwrap();
        let via_room = Event::from_room_event(RoomEvent::from_state_event(state));
        let direct = Event::from_json(via_room.into_json()).unwrap();
        let room = RoomEvent::from_json(direct.into_json()).unwrap();
        let widened = Event::from_room_event(room);
        let direct = Event::from_json(widened.into_json()).unwrap();
        assert_eq!(format!("{:?}", direct.as_json()), text);
    }
    let state = StateEvent::from_json(member_doc(obj(vec![]))).unwrap();
    let widened = Event::from_room_event(RoomEvent::from_state_event(state));
    let direct = Event::from_json(member_doc(obj(vec![]))).unwrap();
    assert_eq!(format!("{:?}", widened), format!("{:?}", direct));
}

#[test]
fn missing_type_fails_everywhere() {
    assert_eq!(Event::from_json(obj(vec![])).unwrap_err(), DecodeError::MissingField);
    assert_eq!(RoomEvent::from_json(obj(vec![])).unwrap_err(), DecodeError::MissingField);
    assert_eq!(StateEvent::from_json(obj(vec![])).unwrap_err(), DecodeError::MissingField);
    assert_eq!(only::Event::from_json(obj(vec![])).unwrap_err(), DecodeError::MissingField);
    assert_eq!(only::RoomEvent::from_json(obj(vec![])).unwrap_err(), DecodeError::MissingField);
    assert_eq!(Event::from_json(Json::Null).unwrap_err(), DecodeError::MissingField);
    assert_eq!(DecodeError::MissingField.message(), "missing field `type`");
}

#[test]
fn member_is_not_only_a_room_event() {
    assert_eq!(
        only::RoomEvent::from_json(member_doc(join_content())).unwrap_err(),
        DecodeError::NotApplicable
    );
    assert!(matches!(RoomEvent::from_json(member_doc(join_content())).unwrap(), RoomEvent::RoomMember(_)));
}

#[test]
fn kinds_outside_a_union_are_not_applicable() {
    let presence = || obj(vec![("type", s("m.presence")), ("content", obj(vec![]))]);
    assert_eq!(StateEvent::from_json(presence()).unwrap_err(), DecodeError::NotApplicable);
    assert_eq!(RoomEvent::from_json(presence()).unwrap_err(), DecodeError::NotApplicable);
    assert_eq!(only::RoomEvent::from_json(presence()).unwrap_err(), DecodeError::NotApplicable);
    assert!(matches!(only::Event::from_json(presence()).unwrap(), only::Event::Presence(_)));
    assert_eq!(only::Event::from_json(member_doc(join_content())).unwrap_err(), DecodeError::NotApplicable);
}

#[test]
fn non_string_type_is_refused() {
    let doc = obj(vec![("type", Json::Number("7".to_string())), ("content", obj(vec![]))]);
    assert_eq!(Event::from_json(doc).unwrap_err(), DecodeError::InvalidType);
}

#[test]
fn malformed_envelope_fails_the_fallback() {
    let doc = obj(vec![
        ("type", s("m.room.member")),
        ("event_id", s("$h29iv0s8:example.com")),
        ("room_id", s("!n8f893n9:example.com")),
        ("state_key", s("@carl:example.com")),
        ("content", join_content()),
    ]);
    assert_eq!(Event::from_json(doc).unwrap_err(), DecodeError::FallbackDecodeFailure);
    let doc = obj(vec![
        ("type", s("m.room.message")),
        ("event_id", s("not-an-event-id")),
        ("room_id", s("!n8f893n9:example.com")),
        ("sender", s("@carl:example.com")),
        ("content", obj(vec![])),
    ]);
    assert_eq!(RoomEvent::from_json(doc).unwrap_err(), DecodeError::FallbackDecodeFailure);
}

#[test]
fn room_message_in_only_room_events() {
    let doc = obj(vec![
        ("type", s("m.room.message")),
        ("event_id", s("$h29iv0s8:example.com")),
        ("room_id", s("!n8f893n9:example.com")),
        ("sender", s("@carl:example.com")),
        ("content", obj(vec![("body", s("hi"))])),
    ]);
    let e = only::RoomEvent::from_json(doc).unwrap();
    assert!(matches!(e, only::RoomEvent::RoomMessage(_)));
    assert!(matches!(e.into_room_event(), RoomEvent::RoomMessage(_)));
}

#[test]
fn typing_event_checks_its_user_ids() {
    let doc = |ids: Vec<Json>| {
        obj(vec![("type", s("m.typing")), ("content", obj(vec![("user_ids", Json::Array(ids))]))])
    };
    let e = only::Event::from_json(doc(vec![s("@carl:example.com")])).unwrap();
    assert!(matches!(e, only::Event::Typing(_)));
    match e.into_event() {
        Event::Typing(k) => {
            let content = k.typing_content().unwrap();
            assert_eq!(content.user_ids, vec!["@carl:example.com".to_string()]);
        }
        other => panic!("unexpected {:?}", other),
    }
    match Event::from_json(doc(vec![s("carl")])).unwrap() {
        Event::Invalid(e) => assert!(e.error.contains("user_ids")),
        other => panic!("unexpected {:?}", other),
    }
}

#[test]
fn call_answer_needs_a_session_description() {
    let doc = |answer: Json| {
        obj(vec![
            ("type", s("m.call.answer")),
            ("event_id", s("$h29iv0s8:example.com")),
            ("room_id", s("!n8f893n9:example.com")),
            ("sender", s("@carl:example.com")),
            ("content", obj(vec![("answer", answer), ("call_id", s("1"))])),
        ])
    };
    let sd = SessionDescription { session_type: SessionDescriptionType::Answer, sdp: "v=0".to_string() };
    assert!(matches!(Event::from_json(doc(sd.to_json())).unwrap(), Event::CallAnswer(_)));
    let bad = obj(vec![("type", s("pranswer")), ("sdp", s("v=0"))]);
    assert!(matches!(Event::from_json(doc(bad)).unwrap(), Event::InvalidRoom(_)));
}

#[test]
fn session_description_round_trip() {
    let sd = SessionDescription { session_type: SessionDescriptionType::Offer, sdp: "v=0".to_string() };
    let j = sd.to_json();
    assert!(same(&j, &obj(vec![("type", s("offer")), ("sdp", s("v=0"))])));
    let back = SessionDescription::from_json(&j).unwrap();
    assert_eq!(back.session_type, SessionDescriptionType::Offer);
    assert_eq!(back.sdp, "v=0");
    assert!(SessionDescription::from_json(&obj(vec![("type", s("offer"))])).is_none());
    assert_eq!(SessionDescriptionType::from_name("answer"), Some(SessionDescriptionType::Answer));
    assert_eq!(SessionDescriptionType::from_name("other"), None);
}

#[test]
fn member_content_round_trip() {
    let content = MemberEventContent {
        avatar_url: None,
        displayname: Some("Carl".to_string()),
        is_direct: Some(true),
        membership: MembershipState::Invite,
        third_party_invite: Some(ThirdPartyInvite {
            display_name: "carl@example.com".to_string(),
            signed: SignedContent {
                mxid: "@carl:example.com".to_string(),
                signatures: obj(vec![("example.com", obj(vec![("ed25519:0", s("sig"))]))]),
                token: "abc".to_string(),
            },
        }),
    };
    let j = content.into_json();
    let doc = member_doc(j);
    let known = KnownEvent::from_json(doc).unwrap();
    let back = known.into_member_content().unwrap();
    assert_eq!(back.membership, MembershipState::Invite);
    assert_eq!(back.displayname, Some("Carl".to_string()));
    assert_eq!(back.avatar_url, None);
    assert_eq!(back.is_direct, Some(true));
    let invite = back.third_party_invite.unwrap();
    assert_eq!(invite.display_name, "carl@example.com");
    assert_eq!(invite.signed.mxid, "@carl:example.com");
    assert_eq!(invite.signed.token, "abc");
    assert!(same(&invite.signed.signatures, &obj(vec![("example.com", obj(vec![("ed25519:0", s("sig"))]))])));
}

#[test]
fn membership_names() {
    for (name, state) in [
        ("ban", MembershipState::Ban),
        ("invite", MembershipState::Invite),
        ("join", MembershipState::Join),
        ("knock", MembershipState::Knock),
        ("leave", MembershipState::Leave),
    ] {
        assert_eq!(MembershipState::from_name(name), Some(state));
        assert_eq!(state.as_str(), name);
    }
    assert_eq!(MembershipState::from_name("Join"), None);
}

#[test]
fn member_with_bad_third_party_invite_is_invalid() {
    let invite = obj(vec![
        ("display_name", s("carl")),
        ("signed", obj(vec![("mxid", s("carl")), ("signatures", obj(vec![])), ("token", s("t"))])),
    ]);
    let content = obj(vec![("membership", s("invite")), ("third_party_invite", invite)]);
    match Event::from_json(member_doc(content)).unwrap() {
        Event::InvalidState(e) => assert!(e.error.contains("third_party_invite")),
        other => panic!("unexpected {:?}", other),
    }
}

#[test]
fn stripped_state_round_trip() {
    let j = obj(vec![
        ("content", obj(vec![("name", s("Room"))])),
        ("type", s("m.room.name")),
        ("state_key", s("")),
    ]);
    let text = format!("{:?}", j);
    let stripped = StrippedState::from_json(j).unwrap();
    match &stripped {
        StrippedState::RoomName(c) => {
            assert_eq!(c.state_key, "");
            assert!(matches!(c.event_type, EventType::RoomName));
        }
        other => panic!("unexpected {:?}", other),
    }
    assert_eq!(format!("{:?}", stripped.into_json()), text);
    let topic = obj(vec![("content", obj(vec![])), ("type", s("m.room.topic")), ("state_key", s(""))]);
    assert!(StrippedState::from_json(topic).is_none());
}

#[test]
fn member_invite_room_state_is_checked() {
    let mut doc = member_doc(join_content());
    let good = Json::Array(vec![obj(vec![
        ("content", obj(vec![("url", s("mxc://a/b"))])),
        ("type", s("m.room.avatar")),
        ("state_key", s("")),
    ])]);
    if let Json::Object(entries) = &mut doc {
        entries.push(("invite_room_state".to_string(), good));
    }
    assert!(matches!(Event::from_json(doc).unwrap(), Event::RoomMember(_)));
    let mut doc = member_doc(join_content());
    if let Json::Object(entries) = &mut doc {
        entries.push(("invite_room_state".to_string(), Json::Array(vec![s("x")])));
    }
    match Event::from_json(doc).unwrap() {
        Event::InvalidState(e) => assert!(e.error.contains("invite_room_state")),
        other => panic!("unexpected {:?}", other),
    }
}

#[test]
fn typing_content_to_json() {
    let t = TypingEventContent { user_ids: vec!["@a:example.com".to_string(), "@b:example.com".to_string()] };
    let j = t.to_json();
    assert!(same(&j, &obj(vec![("user_ids", Json::Array(vec![s("@a:example.com"), s("@b:example.com")]))])));
    let back = TypingEventContent::from_json(&j).unwrap();
    assert_eq!(back.user_ids.len(), 2);
}

#[test]
fn identifier_checks() {
    assert!(check_user_id("@carl:example.com"));
    assert!(!check_user_id("carl:example.com"));
    assert!(!check_user_id("@carl"));
    assert!(check_room_id("!n8f893n9:example.com"));
    assert!(!check_room_id("@n8f893n9:example.com"));
    assert!(check_event_id("$h29iv0s8:example.com"));
    assert!(!check_event_id("h29iv0s8:example.com"));
}

#[test]
fn json_lookup_uses_first_entry() {
    let j = obj(vec![("a", s("1")), ("a", s("2"))]);
    assert!(same(j.get("a").unwrap(), &s("1")));
    assert!(j.get("b").is_none());
    assert!(s("x").get("a").is_none());
    assert!(same(&j.take("a").unwrap(), &s("1")));
}

#[test]
fn member_event_hands_out_its_stripped_state() {
    let mut doc = member_doc(join_content());
    let state = Json::Array(vec![
        obj(vec![("content", obj(vec![("name", s("Room"))])), ("type", s("m.room.name")), ("state_key", s(""))]),
        obj(vec![("content", obj(vec![("join_rule", s("invite"))])), ("type", s("m.room.join_rules")), ("state_key", s(""))]),
    ]);
    if let Json::Object(entries) = &mut doc {
        entries.push(("invite_room_state".to_string(), state));
    }
    let known = KnownEvent::from_json(doc).unwrap();
    let list = known.into_invite_room_state().unwrap();
    assert_eq!(list.len(), 2);
    assert!(matches!(list[0], StrippedState::RoomName(_)));
    assert!(matches!(list[1], StrippedState::RoomJoinRules(_)));
    let known = KnownEvent::from_json(member_doc(join_content())).unwrap();
    assert!(known.into_invite_room_state().is_none());
}

#[test]
fn known_event_refuses_custom_and_malformed_documents() {
    assert!(KnownEvent::from_json(custom_doc(true, true)).is_err());
    let bad = member_doc(obj(vec![]));
    let text = format!("{:?}", bad);
    let back = KnownEvent::from_json(bad).unwrap_err();
    assert_eq!(format!("{:?}", back), text);
    assert!(KnownEvent::from_json(obj(vec![])).is_err());
}
