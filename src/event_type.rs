//! The registry of event kinds and the taxonomy level of each.
use vstd::prelude::*;

use crate::json::{lemma_texts_differ, lemma_texts_differ_at, same_text};

verus! {

/// How much of the room envelope an event carries.
#[derive(Clone, Copy, Debug, PartialEq, Eq, Structural)]
pub enum Level {
    /// No room association: only a type and content.
    Basic,
    /// Scoped to a room: also an event ID, a room ID and a sender.
    Room,
    /// Part of a room's state: a room event with a state key as well.
    State,
}

/// The type of an event: one of the kinds the protocol defines, or any other tag verbatim.
#[derive(Clone, Debug)]
pub enum EventType {
    /// A user's presence: `m.presence`.
    Presence,
    /// Read receipts: `m.receipt`.
    Receipt,
    /// A user's tags on a room: `m.tag`.
    Tag,
    /// The users who are typing: `m.typing`.
    Typing,
    /// The answer to a VoIP call: `m.call.answer`.
    CallAnswer,
    /// ICE candidates for a VoIP call: `m.call.candidates`.
    CallCandidates,
    /// The end of a VoIP call: `m.call.hangup`.
    CallHangup,
    /// An invitation to a VoIP call: `m.call.invite`.
    CallInvite,
    /// A message in the room: `m.room.message`.
    RoomMessage,
    /// The removal of an earlier event's content: `m.room.redaction`.
    RoomRedaction,
    /// The aliases a server holds for a room: `m.room.aliases`.
    RoomAliases,
    /// The room's picture: `m.room.avatar`.
    RoomAvatar,
    /// The room's main alias: `m.room.canonical_alias`.
    RoomCanonicalAlias,
    /// The first event of a room: `m.room.create`.
    RoomCreate,
    /// Whether guests may join: `m.room.guest_access`.
    RoomGuestAccess,
    /// Who may read the room's past events: `m.room.history_visibility`.
    RoomHistoryVisibility,
    /// Who may join the room: `m.room.join_rules`.
    RoomJoinRules,
    /// A user's membership of the room: `m.room.member`.
    RoomMember,
    /// The room's name: `m.room.name`.
    RoomName,
    /// Who may do what in the room: `m.room.power_levels`.
    RoomPowerLevels,
    /// An invitation by a third party identifier: `m.room.third_party_invite`.
    RoomThirdPartyInvite,
    /// The room's topic: `m.room.topic`.
    RoomTopic,
    /// Any event type that is not part of the specification, with its tag as it was given.
    Custom(String),
}

/// The kind among the `m.call` namespace whose tag is `s`, if any.
pub open spec fn call_kind(s: Seq<char>) -> Option<EventType> {
    if s == "m.call.answer"@ {
        Some(EventType::CallAnswer)
    } else if s == "m.call.candidates"@ {
        Some(EventType::CallCandidates)
    } else if s == "m.call.hangup"@ {
        Some(EventType::CallHangup)
    } else if s == "m.call.invite"@ {
        Some(EventType::CallInvite)
    } else {
        None
    }
}

/// The kind among events with no room association whose tag is `s`, if any.
pub open spec fn global_kind(s: Seq<char>) -> Option<EventType> {
    if s == "m.presence"@ {
        Some(EventType::Presence)
    } else if s == "m.receipt"@ {
        Some(EventType::Receipt)
    } else if s == "m.tag"@ {
        Some(EventType::Tag)
    } else if s == "m.typing"@ {
        Some(EventType::Typing)
    } else {
        None
    }
}

/// The kind among room events that are not state whose tag is `s`, if any.
pub open spec fn room_kind(s: Seq<char>) -> Option<EventType> {
    if s == "m.room.message"@ {
        Some(EventType::RoomMessage)
    } else if s == "m.room.redaction"@ {
        Some(EventType::RoomRedaction)
    } else {
        None
    }
}

/// The kind among the first half of the room state kinds whose tag is `s`, if any.
pub open spec fn room_state_kind(s: Seq<char>) -> Option<EventType> {
    if s == "m.room.aliases"@ {
        Some(EventType::RoomAliases)
    } else if s == "m.room.avatar"@ {
        Some(EventType::RoomAvatar)
    } else if s == "m.room.canonical_alias"@ {
        Some(EventType::RoomCanonicalAlias)
    } else if s == "m.room.create"@ {
        Some(EventType::RoomCreate)
    } else if s == "m.room.guest_access"@ {
        Some(EventType::RoomGuestAccess)
    } else if s == "m.room.history_visibility"@ {
        Some(EventType::RoomHistoryVisibility)
    } else {
        None
    }
}

/// The kind among the second half of the room state kinds whose tag is `s`, if any.
pub open spec fn room_state_more_kind(s: Seq<char>) -> Option<EventType> {
    if s == "m.room.join_rules"@ {
        Some(EventType::RoomJoinRules)
    } else if s == "m.room.member"@ {
        Some(EventType::RoomMember)
    } else if s == "m.room.name"@ {
        Some(EventType::RoomName)
    } else if s == "m.room.power_levels"@ {
        Some(EventType::RoomPowerLevels)
    } else if s == "m.room.third_party_invite"@ {
        Some(EventType::RoomThirdPartyInvite)
    } else if s == "m.room.topic"@ {
        Some(EventType::RoomTopic)
    } else {
        None
    }
}

/// `a` when it holds a kind, else `b`.
pub open spec fn either(a: Option<EventType>, b: Option<EventType>) -> Option<EventType> {
    if a is Some {
        a
    } else {
        b
    }
}

/// The registered kind whose tag is `s`, if any.
pub open spec fn registered_kind(s: Seq<char>) -> Option<EventType> {
    either(
        call_kind(s),
        either(
            global_kind(s),
            either(room_kind(s), either(room_state_kind(s), room_state_more_kind(s))),
        ),
    )
}

/// Whether `s` is the tag of a kind the protocol defines.
pub open spec fn is_registered(s: Seq<char>) -> bool {
    registered_kind(s) is Some
}

impl EventType {
    /// The tag text of this type.
    pub open spec fn tag(self) -> Seq<char> {
        match self {
            EventType::Presence => "m.presence"@,
            EventType::Receipt => "m.receipt"@,
            EventType::Tag => "m.tag"@,
            EventType::Typing => "m.typing"@,
            EventType::CallAnswer => "m.call.answer"@,
            EventType::CallCandidates => "m.call.candidates"@,
            EventType::CallHangup => "m.call.hangup"@,
            EventType::CallInvite => "m.call.invite"@,
            EventType::RoomMessage => "m.room.message"@,
            EventType::RoomRedaction => "m.room.redaction"@,
            EventType::RoomAliases => "m.room.aliases"@,
            EventType::RoomAvatar => "m.room.avatar"@,
            EventType::RoomCanonicalAlias => "m.room.canonical_alias"@,
            EventType::RoomCreate => "m.room.create"@,
            EventType::RoomGuestAccess => "m.room.guest_access"@,
            EventType::RoomHistoryVisibility => "m.room.history_visibility"@,
            EventType::RoomJoinRules => "m.room.join_rules"@,
            EventType::RoomMember => "m.room.member"@,
            EventType::RoomName => "m.room.name"@,
            EventType::RoomPowerLevels => "m.room.power_levels"@,
            EventType::RoomThirdPartyInvite => "m.room.third_party_invite"@,
            EventType::RoomTopic => "m.room.topic"@,
            EventType::Custom(s) => s@,
        }
    }

    /// The taxonomy level of a kind the protocol defines; a custom type has none.
    pub open spec fn level(self) -> Option<Level> {
        match self {
            EventType::Presence | EventType::Receipt | EventType::Tag | EventType::Typing => Some(
                Level::Basic,
            ),
            EventType::CallAnswer
            | EventType::CallCandidates
            | EventType::CallHangup
            | EventType::CallInvite
            | EventType::RoomMessage
            | EventType::RoomRedaction => Some(Level::Room),
            EventType::Custom(_) => None,
            _ => Some(Level::State),
        }
    }

    /// The kind among the `m.call` namespace whose tag is `s`, if any.
    fn call_from_tag(s: &str) -> (r: Option<EventType>)
        ensures
            r == call_kind(s@),
    {
        if same_text(s, "m.call.answer") {
            Some(EventType::CallAnswer)
        } else if same_text(s, "m.call.candidates") {
            Some(EventType::CallCandidates)
        } else if same_text(s, "m.call.hangup") {
            Some(EventType::CallHangup)
        } else if same_text(s, "m.call.invite") {
            Some(EventType::CallInvite)
        } else {
            None
        }
    }

    /// The kind among events with no room association whose tag is `s`, if any.
    fn global_from_tag(s: &str) -> (r: Option<EventType>)
        ensures
            r == global_kind(s@),
    {
        if same_text(s, "m.presence") {
            Some(EventType::Presence)
        } else if same_text(s, "m.receipt") {
            Some(EventType::Receipt)
        } else if same_text(s, "m.tag") {
            Some(EventType::Tag)
        } else if same_text(s, "m.typing") {
            Some(EventType::Typing)
        } else {
            None
        }
    }

    /// The kind among room events that are not state whose tag is `s`, if any.
    fn room_from_tag(s: &str) -> (r: Option<EventType>)
        ensures
            r == room_kind(s@),
    {
        if same_text(s, "m.room.message") {
            Some(EventType::RoomMessage)
        } else if same_text(s, "m.room.redaction") {
            Some(EventType::RoomRedaction)
        } else {
            None
        }
    }

    /// The kind among the first half of the room state kinds whose tag is `s`, if any.
    fn room_state_from_tag(s: &str) -> (r: Option<EventType>)
        ensures
            r == room_state_kind(s@),
    {
        if same_text(s, "m.room.aliases") {
            Some(EventType::RoomAliases)
        } else if same_text(s, "m.room.avatar") {
            Some(EventType::RoomAvatar)
        } else if same_text(s, "m.room.canonical_alias") {
            Some(EventType::RoomCanonicalAlias)
        } else if same_text(s, "m.room.create") {
            Some(EventType::RoomCreate)
        } else if same_text(s, "m.room.guest_access") {
            Some(EventType::RoomGuestAccess)
        } else if same_text(s, "m.room.history_visibility") {
            Some(EventType::RoomHistoryVisibility)
        } else {
            None
        }
    }

    /// The kind among the second half of the room state kinds whose tag is `s`, if any.
    fn room_state_more_from_tag(s: &str) -> (r: Option<EventType>)
        ensures
            r == room_state_more_kind(s@),
    {
        if same_text(s, "m.room.join_rules") {
            Some(EventType::RoomJoinRules)
        } else if same_text(s, "m.room.member") {
            Some(EventType::RoomMember)
        } else if same_text(s, "m.room.name") {
            Some(EventType::RoomName)
        } else if same_text(s, "m.room.power_levels") {
            Some(EventType::RoomPowerLevels)
        } else if same_text(s, "m.room.third_party_invite") {
            Some(EventType::RoomThirdPartyInvite)
        } else if same_text(s, "m.room.topic") {
            Some(EventType::RoomTopic)
        } else {
            None
        }
    }

    /// The type a tag denotes: the registered kind with that tag, or a custom type
    /// that keeps the tag verbatim.
    pub fn from_tag(s: &str) -> (r: EventType)
        ensures
            r.tag() == s@,
            registered_kind(s@) matches Some(k) ==> r == k,
            registered_kind(s@) is None ==> r is Custom,
    {
        proof {
            lemma_registered_tag(s@);
        }
        if let Some(k) = Self::call_from_tag(s) {
            return k;
        }
        if let Some(k) = Self::global_from_tag(s) {
            return k;
        }
        if let Some(k) = Self::room_from_tag(s) {
            return k;
        }
        if let Some(k) = Self::room_state_from_tag(s) {
            return k;
        }
        if let Some(k) = Self::room_state_more_from_tag(s) {
            return k;
        }
        EventType::Custom(s.to_owned())
    }

    /// The tag text of this type.
    pub fn to_tag(&self) -> (r: String)
        ensures
            r@ == self.tag(),
    {
        match self {
            EventType::Presence => "m.presence".to_owned(),
            EventType::Receipt => "m.receipt".to_owned(),
            EventType::Tag => "m.tag".to_owned(),
            EventType::Typing => "m.typing".to_owned(),
            EventType::CallAnswer => "m.call.answer".to_owned(),
            EventType::CallCandidates => "m.call.candidates".to_owned(),
            EventType::CallHangup => "m.call.hangup".to_owned(),
            EventType::CallInvite => "m.call.invite".to_owned(),
            EventType::RoomMessage => "m.room.message".to_owned(),
            EventType::RoomRedaction => "m.room.redaction".to_owned(),
            EventType::RoomAliases => "m.room.aliases".to_owned(),
            EventType::RoomAvatar => "m.room.avatar".to_owned(),
            EventType::RoomCanonicalAlias => "m.room.canonical_alias".to_owned(),
            EventType::RoomCreate => "m.room.create".to_owned(),
            EventType::RoomGuestAccess => "m.room.guest_access".to_owned(),
            EventType::RoomHistoryVisibility => "m.room.history_visibility".to_owned(),
            EventType::RoomJoinRules => "m.room.join_rules".to_owned(),
            EventType::RoomMember => "m.room.member".to_owned(),
            EventType::RoomName => "m.room.name".to_owned(),
            EventType::RoomPowerLevels => "m.room.power_levels".to_owned(),
            EventType::RoomThirdPartyInvite => "m.room.third_party_invite".to_owned(),
            EventType::RoomTopic => "m.room.topic".to_owned(),
            EventType::Custom(s) => s.clone(),
        }
    }

    /// The taxonomy level of a kind the protocol defines; a custom type has none.
    pub fn kind_level(&self) -> (r: Option<Level>)
        ensures
            r == self.level(),
    {
        match self {
            EventType::Presence | EventType::Receipt | EventType::Tag | EventType::Typing => Some(
                Level::Basic,
            ),
            EventType::CallAnswer
            | EventType::CallCandidates
            | EventType::CallHangup
            | EventType::CallInvite
            | EventType::RoomMessage
            | EventType::RoomRedaction => Some(Level::Room),
            EventType::Custom(_) => None,
            _ => Some(Level::State),
        }
    }

    /// Whether this is a kind the protocol defines.
    pub fn is_known(&self) -> (r: bool)
        ensures
            r == !(self is Custom),
    {
        match self {
            EventType::Custom(_) => false,
            _ => true,
        }
    }
}

/// The kind found for a tag carries that tag, and is never the custom case.
pub proof fn lemma_registered_tag(s: Seq<char>)
    ensures
        registered_kind(s) matches Some(k) ==> k.tag() == s && !(k is Custom),
{
}

/// Each kind the protocol defines is found again from its own tag, and has a level, while a
/// custom type has no level: so every registered tag is dispatched to exactly one kind, and
/// never to the custom case.
pub proof fn lemma_registry_exact(k: EventType)
    ensures
        !(k is Custom) ==> registered_kind(k.tag()) == Some(k) && k.level() is Some,
        k is Custom ==> k.level() is None,
{
    reveal_strlit("m.call.answer");
    reveal_strlit("m.call.candidates");
    lemma_texts_differ("m.call.candidates"@, "m.call.answer"@);
    reveal_strlit("m.call.hangup");
    lemma_texts_differ_at("m.call.hangup"@, "m.call.answer"@, 7);
    lemma_texts_differ("m.call.hangup"@, "m.call.candidates"@);
    reveal_strlit("m.call.invite");
    lemma_texts_differ_at("m.call.invite"@, "m.call.answer"@, 7);
    lemma_texts_differ("m.call.invite"@, "m.call.candidates"@);
    lemma_texts_differ_at("m.call.invite"@, "m.call.hangup"@, 7);
    reveal_strlit("m.presence");
    lemma_texts_differ("m.presence"@, "m.call.answer"@);
    lemma_texts_differ("m.presence"@, "m.call.candidates"@);
    lemma_texts_differ("m.presence"@, "m.call.hangup"@);
    lemma_texts_differ("m.presence"@, "m.call.invite"@);
    reveal_strlit("m.receipt");
    lemma_texts_differ("m.receipt"@, "m.call.answer"@);
    lemma_texts_differ("m.receipt"@, "m.call.candidates"@);
    lemma_texts_differ("m.receipt"@, "m.call.hangup"@);
    lemma_texts_differ("m.receipt"@, "m.call.invite"@);
    lemma_texts_differ("m.receipt"@, "m.presence"@);
    reveal_strlit("m.tag");
    lemma_texts_differ("m.tag"@, "m.call.answer"@);
    lemma_texts_differ("m.tag"@, "m.call.candidates"@);
    lemma_texts_differ("m.tag"@, "m.call.hangup"@);
    lemma_texts_differ("m.tag"@, "m.call.invite"@);
    lemma_texts_differ("m.tag"@, "m.presence"@);
    lemma_texts_differ("m.tag"@, "m.receipt"@);
    reveal_strlit("m.typing");
    lemma_texts_differ("m.typing"@, "m.call.answer"@);
    lemma_texts_differ("m.typing"@, "m.call.candidates"@);
    lemma_texts_differ("m.typing"@, "m.call.hangup"@);
    lemma_texts_differ("m.typing"@, "m.call.invite"@);
    lemma_texts_differ("m.typing"@, "m.presence"@);
    lemma_texts_differ("m.typing"@, "m.receipt"@);
    lemma_texts_differ("m.typing"@, "m.tag"@);
    reveal_strlit("m.room.message");
    lemma_texts_differ("m.room.message"@, "m.call.answer"@);
    lemma_texts_differ("m.room.message"@, "m.call.candidates"@);
    lemma_texts_differ("m.room.message"@, "m.call.hangup"@);
    lemma_texts_differ("m.room.message"@, "m.call.invite"@);
    lemma_texts_differ("m.room.message"@, "m.presence"@);
    lemma_texts_differ("m.room.message"@, "m.receipt"@);
    lemma_texts_differ("m.room.message"@, "m.tag"@);
    lemma_texts_differ("m.room.message"@, "m.typing"@);
    reveal_strlit("m.room.redaction");
    lemma_texts_differ("m.room.redaction"@, "m.call.answer"@);
    lemma_texts_differ("m.room.redaction"@, "m.call.candidates"@);
    lemma_texts_differ("m.room.redaction"@, "m.call.hangup"@);
    lemma_texts_differ("m.room.redaction"@, "m.call.invite"@);
    lemma_texts_differ("m.room.redaction"@, "m.presence"@);
    lemma_texts_differ("m.room.redaction"@, "m.receipt"@);
    lemma_texts_differ("m.room.redaction"@, "m.tag"@);
    lemma_texts_differ("m.room.redaction"@, "m.typing"@);
    lemma_texts_differ("m.room.redaction"@, "m.room.message"@);
    reveal_strlit("m.room.aliases");
    lemma_texts_differ("m.room.aliases"@, "m.call.answer"@);
    lemma_texts_differ("m.room.aliases"@, "m.call.candidates"@);
    lemma_texts_differ("m.room.aliases"@, "m.call.hangup"@);
    lemma_texts_differ("m.room.aliases"@, "m.call.invite"@);
    lemma_texts_differ("m.room.aliases"@, "m.presence"@);
    lemma_texts_differ("m.room.aliases"@, "m.receipt"@);
    lemma_texts_differ("m.room.aliases"@, "m.tag"@);
    lemma_texts_differ("m.room.aliases"@, "m.typing"@);
    lemma_texts_differ_at("m.room.aliases"@, "m.room.message"@, 7);
    lemma_texts_differ("m.room.aliases"@, "m.room.redaction"@);
    reveal_strlit("m.room.avatar");
    lemma_texts_differ_at("m.room.avatar"@, "m.call.answer"@, 2);
    lemma_texts_differ("m.room.avatar"@, "m.call.candidates"@);
    lemma_texts_differ_at("m.room.avatar"@, "m.call.hangup"@, 2);
    lemma_texts_differ_at("m.room.avatar"@, "m.call.invite"@, 2);
    lemma_texts_differ("m.room.avatar"@, "m.presence"@);
    lemma_texts_differ("m.room.avatar"@, "m.receipt"@);
    lemma_texts_differ("m.room.avatar"@, "m.tag"@);
    lemma_texts_differ("m.room.avatar"@, "m.typing"@);
    lemma_texts_differ("m.room.avatar"@, "m.room.message"@);
    lemma_texts_differ("m.room.avatar"@, "m.room.redaction"@);
    lemma_texts_differ("m.room.avatar"@, "m.room.aliases"@);
    reveal_strlit("m.room.canonical_alias");
    lemma_texts_differ("m.room.canonical_alias"@, "m.call.answer"@);
    lemma_texts_differ("m.room.canonical_alias"@, "m.call.candidates"@);
    lemma_texts_differ("m.room.canonical_alias"@, "m.call.hangup"@);
    lemma_texts_differ("m.room.canonical_alias"@, "m.call.invite"@);
    lemma_texts_differ("m.room.canonical_alias"@, "m.presence"@);
    lemma_texts_differ("m.room.canonical_alias"@, "m.receipt"@);
    lemma_texts_differ("m.room.canonical_alias"@, "m.tag"@);
    lemma_texts_differ("m.room.canonical_alias"@, "m.typing"@);
    lemma_texts_differ("m.room.canonical_alias"@, "m.room.message"@);
    lemma_texts_differ("m.room.canonical_alias"@, "m.room.redaction"@);
    lemma_texts_differ("m.room.canonical_alias"@, "m.room.aliases"@);
    lemma_texts_differ("m.room.canonical_alias"@, "m.room.avatar"@);
    reveal_strlit("m.room.create");
    lemma_texts_differ_at("m.room.create"@, "m.call.answer"@, 2);
    lemma_texts_differ("m.room.create"@, "m.call.candidates"@);
    lemma_texts_differ_at("m.room.create"@, "m.call.hangup"@, 2);
    lemma_texts_differ_at("m.room.create"@, "m.call.invite"@, 2);
    lemma_texts_differ("m.room.create"@, "m.presence"@);
    lemma_texts_differ("m.room.create"@, "m.receipt"@);
    lemma_texts_differ("m.room.create"@, "m.tag"@);
    lemma_texts_differ("m.room.create"@, "m.typing"@);
    lemma_texts_differ("m.room.create"@, "m.room.message"@);
    lemma_texts_differ("m.room.create"@, "m.room.redaction"@);
    lemma_texts_differ("m.room.create"@, "m.room.aliases"@);
    lemma_texts_differ_at("m.room.create"@, "m.room.avatar"@, 7);
    lemma_texts_differ("m.room.create"@, "m.room.canonical_alias"@);
    reveal_strlit("m.room.guest_access");
    lemma_texts_differ("m.room.guest_access"@, "m.call.answer"@);
    lemma_texts_differ("m.room.guest_access"@, "m.call.candidates"@);
    lemma_texts_differ("m.room.guest_access"@, "m.call.hangup"@);
    lemma_texts_differ("m.room.guest_access"@, "m.call.invite"@);
    lemma_texts_differ("m.room.guest_access"@, "m.presence"@);
    lemma_texts_differ("m.room.guest_access"@, "m.receipt"@);
    lemma_texts_differ("m.room.guest_access"@, "m.tag"@);
    lemma_texts_differ("m.room.guest_access"@, "m.typing"@);
    lemma_texts_differ("m.room.guest_access"@, "m.room.message"@);
    lemma_texts_differ("m.room.guest_access"@, "m.room.redaction"@);
    lemma_texts_differ("m.room.guest_access"@, "m.room.aliases"@);
    lemma_texts_differ("m.room.guest_access"@, "m.room.avatar"@);
    lemma_texts_differ("m.room.guest_access"@, "m.room.canonical_alias"@);
    lemma_texts_differ("m.room.guest_access"@, "m.room.create"@);
    reveal_strlit("m.room.history_visibility");
    lemma_texts_differ("m.room.history_visibility"@, "m.call.answer"@);
    lemma_texts_differ("m.room.history_visibility"@, "m.call.candidates"@);
    lemma_texts_differ("m.room.history_visibility"@, "m.call.hangup"@);
    lemma_texts_differ("m.room.history_visibility"@, "m.call.invite"@);
    lemma_texts_differ("m.room.history_visibility"@, "m.presence"@);
    lemma_texts_differ("m.room.history_visibility"@, "m.receipt"@);
    lemma_texts_differ("m.room.history_visibility"@, "m.tag"@);
    lemma_texts_differ("m.room.history_visibility"@, "m.typing"@);
    lemma_texts_differ("m.room.history_visibility"@, "m.room.message"@);
    lemma_texts_differ("m.room.history_visibility"@, "m.room.redaction"@);
    lemma_texts_differ("m.room.history_visibility"@, "m.room.aliases"@);
    lemma_texts_differ("m.room.history_visibility"@, "m.room.avatar"@);
    lemma_texts_differ("m.room.history_visibility"@, "m.room.canonical_alias"@);
    lemma_texts_differ("m.room.history_visibility"@, "m.room.create"@);
    lemma_texts_differ("m.room.history_visibility"@, "m.room.guest_access"@);
    reveal_strlit("m.room.join_rules");
    lemma_texts_differ("m.room.join_rules"@, "m.call.answer"@);
    lemma_texts_differ_at("m.room.join_rules"@, "m.call.candidates"@, 2);
    lemma_texts_differ("m.room.join_rules"@, "m.call.hangup"@);
    lemma_texts_differ("m.room.join_rules"@, "m.call.invite"@);
    lemma_texts_differ("m.room.join_rules"@, "m.presence"@);
    lemma_texts_differ("m.room.join_rules"@, "m.receipt"@);
    lemma_texts_differ("m.room.join_rules"@, "m.tag"@);
    lemma_texts_differ("m.room.join_rules"@, "m.typing"@);
    lemma_texts_differ("m.room.join_rules"@, "m.room.message"@);
    lemma_texts_differ("m.room.join_rules"@, "m.room.redaction"@);
    lemma_texts_differ("m.room.join_rules"@, "m.room.aliases"@);
    lemma_texts_differ("m.room.join_rules"@, "m.room.avatar"@);
    lemma_texts_differ("m.room.join_rules"@, "m.room.canonical_alias"@);
    lemma_texts_differ("m.room.join_rules"@, "m.room.create"@);
    lemma_texts_differ("m.room.join_rules"@, "m.room.guest_access"@);
    lemma_texts_differ("m.room.join_rules"@, "m.room.history_visibility"@);
    reveal_strlit("m.room.member");
    lemma_texts_differ_at("m.room.member"@, "m.call.answer"@, 2);
    lemma_texts_differ("m.room.member"@, "m.call.candidates"@);
    lemma_texts_differ_at("m.room.member"@, "m.call.hangup"@, 2);
    lemma_texts_differ_at("m.room.member"@, "m.call.invite"@, 2);
    lemma_texts_differ("m.room.member"@, "m.presence"@);
    lemma_texts_differ("m.room.member"@, "m.receipt"@);
    lemma_texts_differ("m.room.member"@, "m.tag"@);
    lemma_texts_differ("m.room.member"@, "m.typing"@);
    lemma_texts_differ("m.room.member"@, "m.room.message"@);
    lemma_texts_differ("m.room.member"@, "m.room.redaction"@);
    lemma_texts_differ("m.room.member"@, "m.room.aliases"@);
    lemma_texts_differ_at("m.room.member"@, "m.room.avatar"@, 7);
    lemma_texts_differ("m.room.member"@, "m.room.canonical_alias"@);
    lemma_texts_differ_at("m.room.member"@, "m.room.create"@, 7);
    lemma_texts_differ("m.room.member"@, "m.room.guest_access"@);
    lemma_texts_differ("m.room.member"@, "m.room.history_visibility"@);
    lemma_texts_differ("m.room.member"@, "m.room.join_rules"@);
    reveal_strlit("m.room.name");
    lemma_texts_differ("m.room.name"@, "m.call.answer"@);
    lemma_texts_differ("m.room.name"@, "m.call.candidates"@);
    lemma_texts_differ("m.room.name"@, "m.call.hangup"@);
    lemma_texts_differ("m.room.name"@, "m.call.invite"@);
    lemma_texts_differ("m.room.name"@, "m.presence"@);
    lemma_texts_differ("m.room.name"@, "m.receipt"@);
    lemma_texts_differ("m.room.name"@, "m.tag"@);
    lemma_texts_differ("m.room.name"@, "m.typing"@);
    lemma_texts_differ("m.room.name"@, "m.room.message"@);
    lemma_texts_differ("m.room.name"@, "m.room.redaction"@);
    lemma_texts_differ("m.room.name"@, "m.room.aliases"@);
    lemma_texts_differ("m.room.name"@, "m.room.avatar"@);
    lemma_texts_differ("m.room.name"@, "m.room.canonical_alias"@);
    lemma_texts_differ("m.room.name"@, "m.room.create"@);
    lemma_texts_differ("m.room.name"@, "m.room.guest_access"@);
    lemma_texts_differ("m.room.name"@, "m.room.history_visibility"@);
    lemma_texts_differ("m.room.name"@, "m.room.join_rules"@);
    lemma_texts_differ("m.room.name"@, "m.room.member"@);
    reveal_strlit("m.room.power_levels");
    lemma_texts_differ("m.room.power_levels"@, "m.call.answer"@);
    lemma_texts_differ("m.room.power_levels"@, "m.call.candidates"@);
    lemma_texts_differ("m.room.power_levels"@, "m.call.hangup"@);
    lemma_texts_differ("m.room.power_levels"@, "m.call.invite"@);
    lemma_texts_differ("m.room.power_levels"@, "m.presence"@);
    lemma_texts_differ("m.room.power_levels"@, "m.receipt"@);
    lemma_texts_differ("m.room.power_levels"@, "m.tag"@);
    lemma_texts_differ("m.room.power_levels"@, "m.typing"@);
    lemma_texts_differ("m.room.power_levels"@, "m.room.message"@);
    lemma_texts_differ("m.room.power_levels"@, "m.room.redaction"@);
    lemma_texts_differ("m.room.power_levels"@, "m.room.aliases"@);
    lemma_texts_differ("m.room.power_levels"@, "m.room.avatar"@);
    lemma_texts_differ("m.room.power_levels"@, "m.room.canonical_alias"@);
    lemma_texts_differ("m.room.power_levels"@, "m.room.create"@);
    lemma_texts_differ_at("m.room.power_levels"@, "m.room.guest_access"@, 7);
    lemma_texts_differ("m.room.power_levels"@, "m.room.history_visibility"@);
    lemma_texts_differ("m.room.power_levels"@, "m.room.join_rules"@);
    lemma_texts_differ("m.room.power_levels"@, "m.room.member"@);
    lemma_texts_differ("m.room.power_levels"@, "m.room.name"@);
    reveal_strlit("m.room.third_party_invite");
    lemma_texts_differ("m.room.third_party_invite"@, "m.call.answer"@);
    lemma_texts_differ("m.room.third_party_invite"@, "m.call.candidates"@);
    lemma_texts_differ("m.room.third_party_invite"@, "m.call.hangup"@);
    lemma_texts_differ("m.room.third_party_invite"@, "m.call.invite"@);
    lemma_texts_differ("m.room.third_party_invite"@, "m.presence"@);
    lemma_texts_differ("m.room.third_party_invite"@, "m.receipt"@);
    lemma_texts_differ("m.room.third_party_invite"@, "m.tag"@);
    lemma_texts_differ("m.room.third_party_invite"@, "m.typing"@);
    lemma_texts_differ("m.room.third_party_invite"@, "m.room.message"@);
    lemma_texts_differ("m.room.third_party_invite"@, "m.room.redaction"@);
    lemma_texts_differ("m.room.third_party_invite"@, "m.room.aliases"@);
    lemma_texts_differ("m.room.third_party_invite"@, "m.room.avatar"@);
    lemma_texts_differ("m.room.third_party_invite"@, "m.room.canonical_alias"@);
    lemma_texts_differ("m.room.third_party_invite"@, "m.room.create"@);
    lemma_texts_differ("m.room.third_party_invite"@, "m.room.guest_access"@);
    lemma_texts_differ_at("m.room.third_party_invite"@, "m.room.history_visibility"@, 7);
    lemma_texts_differ("m.room.third_party_invite"@, "m.room.join_rules"@);
    lemma_texts_differ("m.room.third_party_invite"@, "m.room.member"@);
    lemma_texts_differ("m.room.third_party_invite"@, "m.room.name"@);
    lemma_texts_differ("m.room.third_party_invite"@, "m.room.power_levels"@);
    reveal_strlit("m.room.topic");
    lemma_texts_differ("m.room.topic"@, "m.call.answer"@);
    lemma_texts_differ("m.room.topic"@, "m.call.candidates"@);
    lemma_texts_differ("m.room.topic"@, "m.call.hangup"@);
    lemma_texts_differ("m.room.topic"@, "m.call.invite"@);
    lemma_texts_differ("m.room.topic"@, "m.presence"@);
    lemma_texts_differ("m.room.topic"@, "m.receipt"@);
    lemma_texts_differ("m.room.topic"@, "m.tag"@);
    lemma_texts_differ("m.room.topic"@, "m.typing"@);
    lemma_texts_differ("m.room.topic"@, "m.room.message"@);
    lemma_texts_differ("m.room.topic"@, "m.room.redaction"@);
    lemma_texts_differ("m.room.topic"@, "m.room.aliases"@);
    lemma_texts_differ("m.room.topic"@, "m.room.avatar"@);
    lemma_texts_differ("m.room.topic"@, "m.room.canonical_alias"@);
    lemma_texts_differ("m.room.topic"@, "m.room.create"@);
    lemma_texts_differ("m.room.topic"@, "m.room.guest_access"@);
    lemma_texts_differ("m.room.topic"@, "m.room.history_visibility"@);
    lemma_texts_differ("m.room.topic"@, "m.room.join_rules"@);
    lemma_texts_differ("m.room.topic"@, "m.room.member"@);
    lemma_texts_differ("m.room.topic"@, "m.room.name"@);
    lemma_texts_differ("m.room.topic"@, "m.room.power_levels"@);
    lemma_texts_differ("m.room.topic"@, "m.room.third_party_invite"@);
}

} // verus!
