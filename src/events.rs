//! The rules that classify an untyped document as an event: the envelope each taxonomy
//! level needs, the checks each kind adds, the invalid and custom fallbacks, and the
//! outcome of a decode for each family of unions.
use vstd::prelude::*;

use crate::call::session_description_ok;
use crate::event_type::{is_registered, registered_kind, EventType, Level};
use crate::ids::{check_event_id, check_room_id, check_user_id, is_event_id, is_room_id, is_user_id};
use crate::json::Json;
use crate::member::{check_member_content, member_content_fault, MemberEventContent};
use crate::stripped::{
    check_invite_room_state, optional_invite_room_state, stripped_list, stripped_ok, StrippedState,
};
use crate::typing::{
    check_optional_room_id, check_typing_content, optional_room_id, typing_content_ok,
    TypingEventContent,
};

verus! {

/// Why a document could not be decoded as an event.
#[derive(Clone, Copy, Debug, PartialEq, Eq, Structural)]
pub enum DecodeError {
    /// The document has no `type` field.
    MissingField,
    /// The `type` field is not a string.
    InvalidType,
    /// The kind is not one that the requested union holds.
    NotApplicable,
    /// The kind is known and its document malformed, and the document does not even hold the
    /// envelope that the invalid fallback of its level needs.
    FallbackDecodeFailure,
    /// The type is not one the protocol defines, and the document does not hold the envelope
    /// of the shape it was routed to.
    UnknownTagStructuralMismatch,
}

impl DecodeError {
    /// A human-readable description of the error.
    pub open spec fn text(self) -> Seq<char> {
        match self {
            DecodeError::MissingField => "missing field `type`"@,
            DecodeError::InvalidType => "field `type` is not a string"@,
            DecodeError::NotApplicable => "event kind does not belong to this collection"@,
            DecodeError::FallbackDecodeFailure => "event is malformed beyond its envelope"@,
            DecodeError::UnknownTagStructuralMismatch => "custom event does not fit its shape"@,
        }
    }

    /// A human-readable description of the error.
    pub fn message(&self) -> (r: String)
        ensures
            r@ == self.text(),
    {
        let text = match self {
            DecodeError::MissingField => "missing field `type`",
            DecodeError::InvalidType => "field `type` is not a string",
            DecodeError::NotApplicable => "event kind does not belong to this collection",
            DecodeError::FallbackDecodeFailure => "event is malformed beyond its envelope",
            DecodeError::UnknownTagStructuralMismatch => "custom event does not fit its shape",
        };
        text.to_owned()
    }
}

/// The families of unions that a document can be decoded into.
#[derive(Clone, Copy, Debug, PartialEq, Eq, Structural)]
pub enum Scope {
    /// Basic, room and state events.
    All,
    /// Room and state events.
    Room,
    /// State events.
    State,
    /// Basic events that are nothing more.
    OnlyBasic,
    /// Room events that are not state events.
    OnlyRoom,
}

/// Whether the unions of `scope` hold kinds of `level`.
pub open spec fn accepts(scope: Scope, level: Level) -> bool {
    match scope {
        Scope::All => true,
        Scope::Room => level != Level::Basic,
        Scope::State => level == Level::State,
        Scope::OnlyBasic => level == Level::Basic,
        Scope::OnlyRoom => level == Level::Room,
    }
}

/// The shape that a document of a custom type is decoded as, in the unions of `scope`: a
/// `state_key` makes it a state event before anything else is looked at, then an event
/// ID, room ID and sender together make it a room event.
pub open spec fn custom_level(scope: Scope, doc: Json) -> Level {
    match scope {
        Scope::All => if doc.has("state_key"@) {
            Level::State
        } else if doc.has("event_id"@) && doc.has("room_id"@) && doc.has("sender"@) {
            Level::Room
        } else {
            Level::Basic
        },
        Scope::Room => if doc.has("state_key"@) {
            Level::State
        } else {
            Level::Room
        },
        Scope::State => Level::State,
        Scope::OnlyBasic => Level::Basic,
        Scope::OnlyRoom => Level::Room,
    }
}

/// The level of a registered kind.
pub open spec fn level_of(k: EventType) -> Level {
    match k.level() {
        Some(l) => l,
        None => Level::Basic,
    }
}

/// The first envelope field that an event of `level` lacks or holds malformed, if any.
pub open spec fn envelope_fault(level: Level, doc: Json) -> Option<Seq<char>> {
    if level == Level::Basic {
        None
    } else if !(doc.text("event_id"@) matches Some(s) && is_event_id(s)) {
        Some("event_id"@)
    } else if !(doc.text("room_id"@) matches Some(s) && is_room_id(s)) {
        Some("room_id"@)
    } else if !(doc.text("sender"@) matches Some(s) && is_user_id(s)) {
        Some("sender"@)
    } else if level == Level::State && doc.text("state_key"@) is None {
        Some("state_key"@)
    } else {
        None
    }
}

/// Whether `doc`'s content holds, under `key`, a well-formed session description.
pub open spec fn session_at(doc: Json, key: Seq<char>) -> bool {
    doc.field("content"@) matches Some(c) && c.field(key) matches Some(d)
        && session_description_ok(d)
}

/// The first field, past the envelope, that keeps `doc` from being an event of kind `k`.
pub open spec fn payload_fault(k: EventType, doc: Json) -> Option<Seq<char>> {
    let c = doc.field("content"@)->0;
    match k {
        EventType::RoomMember => if member_content_fault(c) is Some {
            member_content_fault(c)
        } else if !optional_invite_room_state(doc) {
            Some("invite_room_state"@)
        } else {
            None
        },
        EventType::Typing => if !typing_content_ok(c) {
            Some("user_ids"@)
        } else if !optional_room_id(doc) {
            Some("room_id"@)
        } else {
            None
        },
        EventType::CallAnswer => if !session_at(doc, "answer"@) {
            Some("answer"@)
        } else {
            None
        },
        EventType::CallInvite => if !session_at(doc, "offer"@) {
            Some("offer"@)
        } else {
            None
        },
        _ => None,
    }
}

/// The first field that keeps `doc` from being an event of the registered kind `k`, if any:
/// its content must be an object, its envelope that of `k`'s level, and its payload what
/// `k` asks for.
pub open spec fn kind_fault(k: EventType, doc: Json) -> Option<Seq<char>> {
    if !doc.has_object("content"@) {
        Some("content"@)
    } else if envelope_fault(level_of(k), doc) is Some {
        envelope_fault(level_of(k), doc)
    } else {
        payload_fault(k, doc)
    }
}

/// Whether `doc` has the shape of a custom event of `level`: content of any form, and the
/// envelope of that level.
pub open spec fn custom_ok(level: Level, doc: Json) -> bool {
    doc.has("content"@) && envelope_fault(level, doc) is None
}

/// The error text that an invalid fallback carries when `field` was at fault.
pub open spec fn invalid_message(field: Seq<char>) -> Seq<char> {
    "missing or invalid field: "@ + field
}

/// What a decoded document is, short of the document itself.
pub enum Class {
    /// An event of a registered kind.
    Known(EventType),
    /// A registered kind whose document is malformed, kept at a level, with its error text.
    Invalid(Level, Seq<char>),
    /// A custom type, kept in the shape of a level.
    Custom(Level),
}

/// The outcome of decoding `doc` into the unions of `scope`.
pub open spec fn outcome(scope: Scope, doc: Json) -> Result<Class, DecodeError> {
    match doc.field("type"@) {
        None => Err(DecodeError::MissingField),
        Some(Json::Str(t)) => match registered_kind(t@) {
            Some(k) => known_outcome(scope, k, doc),
            None => if custom_ok(custom_level(scope, doc), doc) {
                Ok(Class::Custom(custom_level(scope, doc)))
            } else {
                Err(DecodeError::UnknownTagStructuralMismatch)
            },
        },
        Some(_) => Err(DecodeError::InvalidType),
    }
}

/// The outcome of decoding `doc`, whose tag is that of the registered kind `k`, into the
/// unions of `scope`.
pub open spec fn known_outcome(scope: Scope, k: EventType, doc: Json) -> Result<Class, DecodeError> {
    if !accepts(scope, level_of(k)) {
        Err(DecodeError::NotApplicable)
    } else if kind_fault(k, doc) is None {
        Ok(Class::Known(k))
    } else if envelope_fault(level_of(k), doc) is None {
        Ok(Class::Invalid(level_of(k), invalid_message(kind_fault(k, doc)->0)))
    } else {
        Err(DecodeError::FallbackDecodeFailure)
    }
}

/// The first envelope field that an event of `level` lacks or holds malformed, if any.
pub fn check_envelope(level: Level, doc: &Json) -> (r: Option<&'static str>)
    ensures
        r is Some == envelope_fault(level, *doc) is Some,
        r matches Some(f) ==> envelope_fault(level, *doc) == Some(f@),
{
    if level == Level::Basic {
        return None;
    }
    let ok = match doc.get_str("event_id") {
        Some(s) => check_event_id(s.as_str()),
        None => false,
    };
    if !ok {
        return Some("event_id");
    }
    let ok = match doc.get_str("room_id") {
        Some(s) => check_room_id(s.as_str()),
        None => false,
    };
    if !ok {
        return Some("room_id");
    }
    let ok = match doc.get_str("sender") {
        Some(s) => check_user_id(s.as_str()),
        None => false,
    };
    if !ok {
        return Some("sender");
    }
    if level == Level::State && doc.get_str("state_key").is_none() {
        return Some("state_key");
    }
    None
}

/// Whether `doc`'s content holds, under `key`, a well-formed session description.
fn check_session_at(doc: &Json, key: &str) -> (r: bool)
    ensures
        r == session_at(*doc, key@),
{
    match doc.get("content") {
        Some(c) => match c.get(key) {
            Some(d) => crate::call::SessionDescription::from_json(d).is_some(),
            None => false,
        },
        None => false,
    }
}

/// The first field, past the envelope, that keeps `doc` from being an event of kind `k`.
fn check_payload(k: &EventType, doc: &Json) -> (r: Option<&'static str>)
    requires
        doc.has_object("content"@),
    ensures
        r is Some == payload_fault(*k, *doc) is Some,
        r matches Some(f) ==> payload_fault(*k, *doc) == Some(f@),
{
    let c = match doc.get("content") {
        Some(c) => c,
        None => return None,
    };
    match k {
        EventType::RoomMember => {
            let f = check_member_content(c);
            if f.is_some() {
                f
            } else if !check_invite_room_state(doc) {
                Some("invite_room_state")
            } else {
                None
            }
        },
        EventType::Typing => {
            if !check_typing_content(c) {
                Some("user_ids")
            } else if !check_optional_room_id(doc) {
                Some("room_id")
            } else {
                None
            }
        },
        EventType::CallAnswer => {
            if !check_session_at(doc, "answer") {
                Some("answer")
            } else {
                None
            }
        },
        EventType::CallInvite => {
            if !check_session_at(doc, "offer") {
                Some("offer")
            } else {
                None
            }
        },
        _ => None,
    }
}

/// The first field that keeps `doc` from being an event of the registered kind `k`, if any.
pub fn check_kind(k: &EventType, doc: &Json) -> (r: Option<&'static str>)
    ensures
        r is Some == kind_fault(*k, *doc) is Some,
        r matches Some(f) ==> kind_fault(*k, *doc) == Some(f@),
{
    if !doc.check_object("content") {
        return Some("content");
    }
    let level = match k.kind_level() {
        Some(l) => l,
        None => Level::Basic,
    };
    let f = check_envelope(level, doc);
    if f.is_some() {
        return f;
    }
    check_payload(k, doc)
}

/// The shape that a document of a custom type is decoded as, in the unions of `scope`.
pub fn route_custom(scope: Scope, doc: &Json) -> (r: Level)
    ensures
        r == custom_level(scope, *doc),
{
    match scope {
        Scope::All => if doc.contains("state_key") {
            Level::State
        } else if doc.contains("event_id") && doc.contains("room_id") && doc.contains("sender") {
            Level::Room
        } else {
            Level::Basic
        },
        Scope::Room => if doc.contains("state_key") {
            Level::State
        } else {
            Level::Room
        },
        Scope::State => Level::State,
        Scope::OnlyBasic => Level::Basic,
        Scope::OnlyRoom => Level::Room,
    }
}

/// The error text that an invalid fallback carries when `field` was at fault.
fn describe_fault(field: &str) -> (r: String)
    ensures
        r@ == invalid_message(field@),
{
    "missing or invalid field: ".to_owned().concat(field)
}

/// An event of a kind the protocol defines, with the document it was read from.
#[derive(Debug)]
pub struct KnownEvent {
    /// The kind of the event.
    pub kind: EventType,
    /// The event as a document.
    pub json: Json,
}

impl KnownEvent {
    /// Whether the kind is a registered one and the document a well-formed event of it.
    pub open spec fn wf(self) -> bool {
        &&& !(self.kind is Custom)
        &&& self.json.text("type"@) == Some(self.kind.tag())
        &&& kind_fault(self.kind, self.json) is None
    }

    /// Reads an event of a registered kind from a document; the document comes back
    /// unchanged when its type is missing, custom, or its fields malformed.
    pub fn from_json(doc: Json) -> (r: Result<KnownEvent, Json>)
        ensures
            r is Ok == (doc.text("type"@) matches Some(t) && registered_kind(t) matches Some(k)
                && kind_fault(k, doc) is None),
            r matches Ok(e) ==> e.wf() && e.json == doc && Some(e.kind) == registered_kind(
                doc.text("type"@)->0,
            ),
            r matches Err(d) ==> d == doc,
    {
        let kind = match doc.get_str("type") {
            Some(t) => EventType::from_tag(t.as_str()),
            None => return Err(doc),
        };
        proof {
            crate::event_type::lemma_registered_tag(doc.text("type"@)->0);
        }
        if !kind.is_known() || check_kind(&kind, &doc).is_some() {
            return Err(doc);
        }
        Ok(KnownEvent { kind, json: doc })
    }

    /// The typed content of a member event; `None` for an event of another kind.
    pub fn into_member_content(self) -> (r: Option<MemberEventContent>)
        requires
            self.wf(),
        ensures
            r is Some == (self.kind == EventType::RoomMember),
            r matches Some(m) ==> m.describes(self.json.field("content"@)->0) && m.wf(),
    {
        match self.kind {
            EventType::RoomMember => match self.json.take("content") {
                Some(c) => MemberEventContent::from_json(c),
                None => None,
            },
            _ => None,
        }
    }

    /// The stripped room state that a member event carries; `None` for an event of another
    /// kind, or a member event without it.
    pub fn into_invite_room_state(self) -> (r: Option<Vec<StrippedState>>)
        requires
            self.wf(),
        ensures
            r is Some == (self.kind == EventType::RoomMember && self.json.field(
                "invite_room_state"@,
            ) matches Some(Json::Array(_))),
            r matches Some(list) ==> self.json.field("invite_room_state"@) matches Some(
                Json::Array(a),
            ) && list@.len() == a@.len() && forall|i: int|
                0 <= i < a@.len() ==> (#[trigger] list@[i]).describes(a@[i]) && list@[i].wf(),
    {
        match self.kind {
            EventType::RoomMember => {},
            _ => return None,
        }
        let ghost doc = self.json;
        let items = match self.json.take("invite_room_state") {
            Some(Json::Array(items)) => items,
            _ => return None,
        };
        let ghost all = items@;
        assert(stripped_list(all));
        let mut rest = items;
        let mut out: Vec<StrippedState> = Vec::new();
        while rest.len() > 0
            invariant
                rest@.len() <= all.len(),
                rest@ == all.subrange(0, rest@.len() as int),
                out@.len() == all.len() - rest@.len(),
                stripped_list(all),
                forall|j: int|
                    0 <= j < out@.len() ==> (#[trigger] out@[j]).describes(all[rest@.len() + j])
                        && out@[j].wf(),
            decreases rest@.len(),
        {
            let ghost i = rest@.len() - 1;
            let item = rest.pop().unwrap();
            assert(item == all[i]);
            assert(stripped_ok(all[i]));
            match StrippedState::from_json(item) {
                Some(st) => out.insert(0, st),
                None => return None,
            }
            assert(rest@ =~= all.subrange(0, rest@.len() as int));
        }
        Some(out)
    }

    /// The typed content of a typing event; `None` for an event of another kind.
    pub fn typing_content(&self) -> (r: Option<TypingEventContent>)
        requires
            self.wf(),
        ensures
            r is Some == (self.kind == EventType::Typing),
            r matches Some(t) ==> t.describes(self.json.field("content"@)->0) && t.wf(),
    {
        match self.kind {
            EventType::Typing => match self.json.get("content") {
                Some(c) => TypingEventContent::from_json(c),
                None => None,
            },
            _ => None,
        }
    }
}

/// A registered kind whose document is malformed, kept whole with a description of the fault.
#[derive(Debug)]
pub struct InvalidEvent {
    /// The document as it was given.
    pub json: Json,
    /// What was wrong with it.
    pub error: String,
}

impl InvalidEvent {
    /// Whether the document holds the envelope of `level`, and the error text is not empty.
    pub open spec fn wf_at(self, level: Level) -> bool {
        self.json.text("type"@) is Some && envelope_fault(level, self.json) is None
            && self.error@.len() > 0
    }
}

/// An event of a type the protocol does not define, kept whole.
#[derive(Debug)]
pub struct CustomEvent {
    /// The document as it was given.
    pub json: Json,
}

impl CustomEvent {
    /// Whether the document has the shape of a custom event of `level`.
    pub open spec fn wf_at(self, level: Level) -> bool {
        self.json.text("type"@) is Some && !is_registered(self.json.text("type"@)->0)
            && custom_ok(level, self.json)
    }
}

/// A decoded event, before it is placed in a union.
#[derive(Debug)]
pub enum Decoded {
    /// An event of a registered kind.
    Known(KnownEvent),
    /// A registered kind whose document is malformed, at the level of the kind.
    Invalid(Level, InvalidEvent),
    /// A custom type, in the shape of the level it was routed to.
    Custom(Level, CustomEvent),
}

impl Decoded {
    /// What the value is, short of its document.
    pub open spec fn class(self) -> Class {
        match self {
            Decoded::Known(e) => Class::Known(e.kind),
            Decoded::Invalid(l, e) => Class::Invalid(l, e.error@),
            Decoded::Custom(l, e) => Class::Custom(l),
        }
    }

    /// The document of the event held.
    pub open spec fn json(self) -> Json {
        match self {
            Decoded::Known(e) => e.json,
            Decoded::Invalid(_, e) => e.json,
            Decoded::Custom(_, e) => e.json,
        }
    }

    /// Whether the event held is well formed at its level.
    pub open spec fn wf(self) -> bool {
        match self {
            Decoded::Known(e) => e.wf(),
            Decoded::Invalid(l, e) => e.wf_at(l),
            Decoded::Custom(l, e) => e.wf_at(l),
        }
    }
}

/// Decodes `doc` for the unions of `scope`: resolves its type, dispatches a registered kind
/// to that kind's checks, falls back to an invalid event of the kind's level when they fail,
/// and routes a custom type by the fields it holds.
pub fn classify(scope: Scope, doc: Json) -> (r: Result<Decoded, DecodeError>)
    ensures
        match outcome(scope, doc) {
            Ok(c) => r matches Ok(d) && d.class() == c && d.json() == doc && d.wf(),
            Err(e) => r == Err::<Decoded, DecodeError>(e),
        },
{
    let kind = match doc.get("type") {
        None => return Err(DecodeError::MissingField),
        Some(Json::Str(t)) => EventType::from_tag(t.as_str()),
        Some(_) => return Err(DecodeError::InvalidType),
    };
    proof {
        crate::event_type::lemma_registered_tag(doc.text("type"@)->0);
    }
    match kind.kind_level() {
        Some(level) => {
            let in_scope = match scope {
                Scope::All => true,
                Scope::Room => level != Level::Basic,
                Scope::State => level == Level::State,
                Scope::OnlyBasic => level == Level::Basic,
                Scope::OnlyRoom => level == Level::Room,
            };
            if !in_scope {
                return Err(DecodeError::NotApplicable);
            }
            match check_kind(&kind, &doc) {
                None => Ok(Decoded::Known(KnownEvent { kind, json: doc })),
                Some(field) => {
                    if check_envelope(level, &doc).is_some() {
                        return Err(DecodeError::FallbackDecodeFailure);
                    }
                    let error = describe_fault(field);
                    proof {
                        reveal_strlit("missing or invalid field: ");
                    }
                    Ok(Decoded::Invalid(level, InvalidEvent { json: doc, error }))
                },
            }
        },
        None => {
            let level = route_custom(scope, &doc);
            if doc.contains("content") && check_envelope(level, &doc).is_none() {
                Ok(Decoded::Custom(level, CustomEvent { json: doc }))
            } else {
                Err(DecodeError::UnknownTagStructuralMismatch)
            }
        },
    }
}

/// A well-formed event of a registered kind decodes as that kind in every union family that
/// holds its level.
pub proof fn lemma_known_outcome(scope: Scope, v: KnownEvent)
    requires
        v.wf(),
        accepts(scope, level_of(v.kind)),
    ensures
        outcome(scope, v.json) == Ok::<Class, DecodeError>(Class::Known(v.kind)),
{
    crate::event_type::lemma_registry_exact(v.kind);
}

/// A document whose tag is registered is never decoded as a custom event, in any union
/// family, and when it is decoded as a known event, that event is of the tag's own kind.
pub proof fn lemma_registered_never_custom(scope: Scope, doc: Json)
    requires
        doc.text("type"@) matches Some(t) && is_registered(t),
    ensures
        !(outcome(scope, doc) matches Ok(Class::Custom(_))),
        outcome(scope, doc) matches Ok(Class::Known(k)) ==> k.tag() == doc.text("type"@)->0
            && Some(k) == registered_kind(doc.text("type"@)->0),
        outcome(scope, doc) matches Ok(Class::Invalid(l, _)) ==> Some(l) == registered_kind(
            doc.text("type"@)->0,
        )->0.level(),
{
    crate::event_type::lemma_registered_tag(doc.text("type"@)->0);
}

/// A member event whose content lacks `membership`, but whose state envelope is sound, is
/// kept as an invalid state event that names the missing field, in every union that holds
/// state events.
pub proof fn lemma_member_fallback(doc: Json)
    requires
        doc.text("type"@) == Some("m.room.member"@),
        doc.has_object("content"@),
        doc.field("content"@)->0.field("membership"@) is None,
        envelope_fault(Level::State, doc) is None,
    ensures
        outcome(Scope::All, doc) == Ok::<Class, DecodeError>(
            Class::Invalid(Level::State, invalid_message("membership"@)),
        ),
        outcome(Scope::Room, doc) == outcome(Scope::All, doc),
        outcome(Scope::State, doc) == outcome(Scope::All, doc),
        invalid_message("membership"@).len() > 0,
{
    crate::event_type::lemma_registry_exact(EventType::RoomMember);
    reveal_strlit("missing or invalid field: ");
}

/// A document of a custom type that holds a `state_key` is never taken for a custom room
/// or basic event by the union over every level: it is a custom state event whenever it has
/// that shape, and an error otherwise.
pub proof fn lemma_state_key_first(doc: Json)
    requires
        doc.text("type"@) matches Some(t) && !is_registered(t),
        doc.has("state_key"@),
    ensures
        custom_level(Scope::All, doc) == Level::State,
        outcome(Scope::All, doc) == (if custom_ok(Level::State, doc) {
            Ok::<Class, DecodeError>(Class::Custom(Level::State))
        } else {
            Err(DecodeError::UnknownTagStructuralMismatch)
        }),
        outcome(Scope::Room, doc) == outcome(Scope::All, doc),
{
}

/// Every document that decodes as a state event decodes the same way as a room event and
/// as an event of any level.
pub proof fn lemma_state_within_room_within_all(doc: Json)
    requires
        outcome(Scope::State, doc) is Ok,
    ensures
        outcome(Scope::Room, doc) == outcome(Scope::State, doc),
        outcome(Scope::All, doc) == outcome(Scope::State, doc),
{
}

/// Every document that decodes as a room or state event decodes the same way as an event of
/// any level.
pub proof fn lemma_room_within_all(doc: Json)
    requires
        outcome(Scope::Room, doc) is Ok,
    ensures
        outcome(Scope::All, doc) == outcome(Scope::Room, doc),
{
}

/// A document without a `type` field fails with a missing field, in every union family.
pub proof fn lemma_missing_type(scope: Scope, doc: Json)
    requires
        !doc.has("type"@),
    ensures
        outcome(scope, doc) == Err::<Class, DecodeError>(DecodeError::MissingField),
{
}

/// A document tagged with a state kind is refused by the unions of room events that are not
/// state events, while the unions of room and state events take it in.
pub proof fn lemma_state_kind_not_only_room(doc: Json)
    requires
        doc.text("type"@) matches Some(t) && registered_kind(t) matches Some(k) && k.level()
            == Some(Level::State),
    ensures
        outcome(Scope::OnlyRoom, doc) == Err::<Class, DecodeError>(DecodeError::NotApplicable),
        outcome(Scope::Room, doc) != Err::<Class, DecodeError>(DecodeError::NotApplicable),
{
}

} // verus!
