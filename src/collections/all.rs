//! Unions over every event kind of a taxonomy level and those above it.
use vstd::pervasive::unreached;
use vstd::prelude::*;

use crate::event_type::{EventType, Level};
use crate::events::{
    accepts, classify, lemma_known_outcome, lemma_state_within_room_within_all, level_of, outcome,
    Class, CustomEvent, DecodeError, Decoded, InvalidEvent, KnownEvent, Scope,
};
use crate::json::Json;

verus! {

/// A basic event, room event, or state event.
#[derive(Debug)]
pub enum Event {
    /// The answer to a VoIP call: `m.call.answer`.
    CallAnswer(KnownEvent),
    /// ICE candidates for a VoIP call: `m.call.candidates`.
    CallCandidates(KnownEvent),
    /// The end of a VoIP call: `m.call.hangup`.
    CallHangup(KnownEvent),
    /// An invitation to a VoIP call: `m.call.invite`.
    CallInvite(KnownEvent),
    /// A user's presence: `m.presence`.
    Presence(KnownEvent),
    /// Read receipts: `m.receipt`.
    Receipt(KnownEvent),
    /// The aliases a server holds for a room: `m.room.aliases`.
    RoomAliases(KnownEvent),
    /// The room's picture: `m.room.avatar`.
    RoomAvatar(KnownEvent),
    /// The room's main alias: `m.room.canonical_alias`.
    RoomCanonicalAlias(KnownEvent),
    /// The first event of a room: `m.room.create`.
    RoomCreate(KnownEvent),
    /// Whether guests may join: `m.room.guest_access`.
    RoomGuestAccess(KnownEvent),
    /// Who may read the room's past events: `m.room.history_visibility`.
    RoomHistoryVisibility(KnownEvent),
    /// Who may join the room: `m.room.join_rules`.
    RoomJoinRules(KnownEvent),
    /// A user's membership of the room: `m.room.member`.
    RoomMember(KnownEvent),
    /// A message in the room: `m.room.message`.
    RoomMessage(KnownEvent),
    /// The room's name: `m.room.name`.
    RoomName(KnownEvent),
    /// Who may do what in the room: `m.room.power_levels`.
    RoomPowerLevels(KnownEvent),
    /// The removal of an earlier event's content: `m.room.redaction`.
    RoomRedaction(KnownEvent),
    /// An invitation by a third party identifier: `m.room.third_party_invite`.
    RoomThirdPartyInvite(KnownEvent),
    /// The room's topic: `m.room.topic`.
    RoomTopic(KnownEvent),
    /// A user's tags on a room: `m.tag`.
    Tag(KnownEvent),
    /// The users who are typing: `m.typing`.
    Typing(KnownEvent),
    /// Any known basic event, but with missing or invalid contents.
    Invalid(InvalidEvent),
    /// Any basic event that is not part of the specification.
    Custom(CustomEvent),
    /// Any known room event, but with missing or invalid contents.
    InvalidRoom(InvalidEvent),
    /// Any room event that is not part of the specification.
    CustomRoom(CustomEvent),
    /// Any known state event, but with missing or invalid contents.
    InvalidState(InvalidEvent),
    /// Any state event that is not part of the specification.
    CustomState(CustomEvent),
}

impl Event {
    /// What the value is, short of its document.
    pub open spec fn class(self) -> Class {
        match self {
            Event::CallAnswer(_) => Class::Known(EventType::CallAnswer),
            Event::CallCandidates(_) => Class::Known(EventType::CallCandidates),
            Event::CallHangup(_) => Class::Known(EventType::CallHangup),
            Event::CallInvite(_) => Class::Known(EventType::CallInvite),
            Event::Presence(_) => Class::Known(EventType::Presence),
            Event::Receipt(_) => Class::Known(EventType::Receipt),
            Event::RoomAliases(_) => Class::Known(EventType::RoomAliases),
            Event::RoomAvatar(_) => Class::Known(EventType::RoomAvatar),
            Event::RoomCanonicalAlias(_) => Class::Known(EventType::RoomCanonicalAlias),
            Event::RoomCreate(_) => Class::Known(EventType::RoomCreate),
            Event::RoomGuestAccess(_) => Class::Known(EventType::RoomGuestAccess),
            Event::RoomHistoryVisibility(_) => Class::Known(EventType::RoomHistoryVisibility),
            Event::RoomJoinRules(_) => Class::Known(EventType::RoomJoinRules),
            Event::RoomMember(_) => Class::Known(EventType::RoomMember),
            Event::RoomMessage(_) => Class::Known(EventType::RoomMessage),
            Event::RoomName(_) => Class::Known(EventType::RoomName),
            Event::RoomPowerLevels(_) => Class::Known(EventType::RoomPowerLevels),
            Event::RoomRedaction(_) => Class::Known(EventType::RoomRedaction),
            Event::RoomThirdPartyInvite(_) => Class::Known(EventType::RoomThirdPartyInvite),
            Event::RoomTopic(_) => Class::Known(EventType::RoomTopic),
            Event::Tag(_) => Class::Known(EventType::Tag),
            Event::Typing(_) => Class::Known(EventType::Typing),
            Event::Invalid(e) => Class::Invalid(Level::Basic, e.error@),
            Event::Custom(_) => Class::Custom(Level::Basic),
            Event::InvalidRoom(e) => Class::Invalid(Level::Room, e.error@),
            Event::CustomRoom(_) => Class::Custom(Level::Room),
            Event::InvalidState(e) => Class::Invalid(Level::State, e.error@),
            Event::CustomState(_) => Class::Custom(Level::State),
        }
    }

    /// The document of the event held.
    pub open spec fn json(self) -> Json {
        match self {
            Event::CallAnswer(e) => e.json,
            Event::CallCandidates(e) => e.json,
            Event::CallHangup(e) => e.json,
            Event::CallInvite(e) => e.json,
            Event::Presence(e) => e.json,
            Event::Receipt(e) => e.json,
            Event::RoomAliases(e) => e.json,
            Event::RoomAvatar(e) => e.json,
            Event::RoomCanonicalAlias(e) => e.json,
            Event::RoomCreate(e) => e.json,
            Event::RoomGuestAccess(e) => e.json,
            Event::RoomHistoryVisibility(e) => e.json,
            Event::RoomJoinRules(e) => e.json,
            Event::RoomMember(e) => e.json,
            Event::RoomMessage(e) => e.json,
            Event::RoomName(e) => e.json,
            Event::RoomPowerLevels(e) => e.json,
            Event::RoomRedaction(e) => e.json,
            Event::RoomThirdPartyInvite(e) => e.json,
            Event::RoomTopic(e) => e.json,
            Event::Tag(e) => e.json,
            Event::Typing(e) => e.json,
            Event::Invalid(e) => e.json,
            Event::Custom(e) => e.json,
            Event::InvalidRoom(e) => e.json,
            Event::CustomRoom(e) => e.json,
            Event::InvalidState(e) => e.json,
            Event::CustomState(e) => e.json,
        }
    }

    /// Whether the event held is well formed and of the variant's kind and level.
    pub open spec fn wf(self) -> bool {
        match self {
            Event::CallAnswer(e) => e.kind == EventType::CallAnswer && e.wf(),
            Event::CallCandidates(e) => e.kind == EventType::CallCandidates && e.wf(),
            Event::CallHangup(e) => e.kind == EventType::CallHangup && e.wf(),
            Event::CallInvite(e) => e.kind == EventType::CallInvite && e.wf(),
            Event::Presence(e) => e.kind == EventType::Presence && e.wf(),
            Event::Receipt(e) => e.kind == EventType::Receipt && e.wf(),
            Event::RoomAliases(e) => e.kind == EventType::RoomAliases && e.wf(),
            Event::RoomAvatar(e) => e.kind == EventType::RoomAvatar && e.wf(),
            Event::RoomCanonicalAlias(e) => e.kind == EventType::RoomCanonicalAlias && e.wf(),
            Event::RoomCreate(e) => e.kind == EventType::RoomCreate && e.wf(),
            Event::RoomGuestAccess(e) => e.kind == EventType::RoomGuestAccess && e.wf(),
            Event::RoomHistoryVisibility(e) => e.kind == EventType::RoomHistoryVisibility && e.wf(),
            Event::RoomJoinRules(e) => e.kind == EventType::RoomJoinRules && e.wf(),
            Event::RoomMember(e) => e.kind == EventType::RoomMember && e.wf(),
            Event::RoomMessage(e) => e.kind == EventType::RoomMessage && e.wf(),
            Event::RoomName(e) => e.kind == EventType::RoomName && e.wf(),
            Event::RoomPowerLevels(e) => e.kind == EventType::RoomPowerLevels && e.wf(),
            Event::RoomRedaction(e) => e.kind == EventType::RoomRedaction && e.wf(),
            Event::RoomThirdPartyInvite(e) => e.kind == EventType::RoomThirdPartyInvite && e.wf(),
            Event::RoomTopic(e) => e.kind == EventType::RoomTopic && e.wf(),
            Event::Tag(e) => e.kind == EventType::Tag && e.wf(),
            Event::Typing(e) => e.kind == EventType::Typing && e.wf(),
            Event::Invalid(e) => e.wf_at(Level::Basic),
            Event::Custom(e) => e.wf_at(Level::Basic),
            Event::InvalidRoom(e) => e.wf_at(Level::Room),
            Event::CustomRoom(e) => e.wf_at(Level::Room),
            Event::InvalidState(e) => e.wf_at(Level::State),
            Event::CustomState(e) => e.wf_at(Level::State),
        }
    }

    /// The variant that holds an event of a registered kind.
    pub open spec fn known(e: KnownEvent) -> Event {
        match e.kind {
            EventType::CallAnswer => Event::CallAnswer(e),
            EventType::CallCandidates => Event::CallCandidates(e),
            EventType::CallHangup => Event::CallHangup(e),
            EventType::CallInvite => Event::CallInvite(e),
            EventType::Presence => Event::Presence(e),
            EventType::Receipt => Event::Receipt(e),
            EventType::RoomAliases => Event::RoomAliases(e),
            EventType::RoomAvatar => Event::RoomAvatar(e),
            EventType::RoomCanonicalAlias => Event::RoomCanonicalAlias(e),
            EventType::RoomCreate => Event::RoomCreate(e),
            EventType::RoomGuestAccess => Event::RoomGuestAccess(e),
            EventType::RoomHistoryVisibility => Event::RoomHistoryVisibility(e),
            EventType::RoomJoinRules => Event::RoomJoinRules(e),
            EventType::RoomMember => Event::RoomMember(e),
            EventType::RoomMessage => Event::RoomMessage(e),
            EventType::RoomName => Event::RoomName(e),
            EventType::RoomPowerLevels => Event::RoomPowerLevels(e),
            EventType::RoomRedaction => Event::RoomRedaction(e),
            EventType::RoomThirdPartyInvite => Event::RoomThirdPartyInvite(e),
            EventType::RoomTopic => Event::RoomTopic(e),
            EventType::Tag => Event::Tag(e),
            EventType::Typing => Event::Typing(e),
            _ => arbitrary(),
        }
    }

    /// Whether `r` is what decoding `doc` as a basic, room or state event gives.
    pub open spec fn decoded(doc: Json, r: Result<Event, DecodeError>) -> bool {
        match outcome(Scope::All, doc) {
            Ok(c) => r matches Ok(e) && e.class() == c && e.json() == doc && e.wf(),
            Err(x) => r == Err::<Event, DecodeError>(x),
        }
    }

    /// Places an event of a registered kind in its variant.
    pub fn from_known(e: KnownEvent) -> (r: Event)
        requires
            !(e.kind is Custom),
            accepts(Scope::All, level_of(e.kind)),
        ensures
            r == Event::known(e),
            r.class() == Class::Known(e.kind),
            r.json() == e.json,
            e.wf() ==> r.wf(),
    {
        match e.kind {
            EventType::CallAnswer => Event::CallAnswer(e),
            EventType::CallCandidates => Event::CallCandidates(e),
            EventType::CallHangup => Event::CallHangup(e),
            EventType::CallInvite => Event::CallInvite(e),
            EventType::Presence => Event::Presence(e),
            EventType::Receipt => Event::Receipt(e),
            EventType::RoomAliases => Event::RoomAliases(e),
            EventType::RoomAvatar => Event::RoomAvatar(e),
            EventType::RoomCanonicalAlias => Event::RoomCanonicalAlias(e),
            EventType::RoomCreate => Event::RoomCreate(e),
            EventType::RoomGuestAccess => Event::RoomGuestAccess(e),
            EventType::RoomHistoryVisibility => Event::RoomHistoryVisibility(e),
            EventType::RoomJoinRules => Event::RoomJoinRules(e),
            EventType::RoomMember => Event::RoomMember(e),
            EventType::RoomMessage => Event::RoomMessage(e),
            EventType::RoomName => Event::RoomName(e),
            EventType::RoomPowerLevels => Event::RoomPowerLevels(e),
            EventType::RoomRedaction => Event::RoomRedaction(e),
            EventType::RoomThirdPartyInvite => Event::RoomThirdPartyInvite(e),
            EventType::RoomTopic => Event::RoomTopic(e),
            EventType::Tag => Event::Tag(e),
            EventType::Typing => Event::Typing(e),
            EventType::Custom(_) => unreached(),
        }
    }

    /// Places a decoded event in its variant.
    fn from_decoded(d: Decoded) -> (r: Event)
        requires
            d.wf(),
            d matches Decoded::Known(e) ==> accepts(Scope::All, level_of(e.kind)),
            d matches Decoded::Invalid(l, _) ==> accepts(Scope::All, l),
            d matches Decoded::Custom(l, _) ==> true,
        ensures
            r.class() == d.class(),
            r.json() == d.json(),
            r.wf(),
    {
        match d {
            Decoded::Known(e) => Event::from_known(e),
            Decoded::Invalid(Level::Basic, e) => Event::Invalid(e),
            Decoded::Invalid(Level::Room, e) => Event::InvalidRoom(e),
            Decoded::Invalid(Level::State, e) => Event::InvalidState(e),
            Decoded::Custom(Level::Basic, e) => Event::Custom(e),
            Decoded::Custom(Level::Room, e) => Event::CustomRoom(e),
            Decoded::Custom(Level::State, e) => Event::CustomState(e),
        }
    }

    /// Decodes a document as a basic, room or state event.
    ///
    /// A registered kind outside this union is refused; a registered kind whose document is
    /// malformed is kept as the invalid event of its level; a custom type is kept in the shape
    /// that its fields give it.
    pub fn from_json(doc: Json) -> (r: Result<Event, DecodeError>)
        ensures
            Event::decoded(doc, r),
    {
        match classify(Scope::All, doc) {
            Ok(d) => Ok(Event::from_decoded(d)),
            Err(x) => Err(x),
        }
    }

    /// The document form of the event held: the event encodes itself, and the union adds
    /// nothing of its own.
    pub fn into_json(self) -> (r: Json)
        ensures
            r == self.json(),
    {
        match self {
            Event::CallAnswer(e) => e.json,
            Event::CallCandidates(e) => e.json,
            Event::CallHangup(e) => e.json,
            Event::CallInvite(e) => e.json,
            Event::Presence(e) => e.json,
            Event::Receipt(e) => e.json,
            Event::RoomAliases(e) => e.json,
            Event::RoomAvatar(e) => e.json,
            Event::RoomCanonicalAlias(e) => e.json,
            Event::RoomCreate(e) => e.json,
            Event::RoomGuestAccess(e) => e.json,
            Event::RoomHistoryVisibility(e) => e.json,
            Event::RoomJoinRules(e) => e.json,
            Event::RoomMember(e) => e.json,
            Event::RoomMessage(e) => e.json,
            Event::RoomName(e) => e.json,
            Event::RoomPowerLevels(e) => e.json,
            Event::RoomRedaction(e) => e.json,
            Event::RoomThirdPartyInvite(e) => e.json,
            Event::RoomTopic(e) => e.json,
            Event::Tag(e) => e.json,
            Event::Typing(e) => e.json,
            Event::Invalid(e) => e.json,
            Event::Custom(e) => e.json,
            Event::InvalidRoom(e) => e.json,
            Event::CustomRoom(e) => e.json,
            Event::InvalidState(e) => e.json,
            Event::CustomState(e) => e.json,
        }
    }

    /// The document of the event held.
    pub fn as_json(&self) -> (r: &Json)
        ensures
            *r == self.json(),
    {
        match self {
            Event::CallAnswer(e) => &e.json,
            Event::CallCandidates(e) => &e.json,
            Event::CallHangup(e) => &e.json,
            Event::CallInvite(e) => &e.json,
            Event::Presence(e) => &e.json,
            Event::Receipt(e) => &e.json,
            Event::RoomAliases(e) => &e.json,
            Event::RoomAvatar(e) => &e.json,
            Event::RoomCanonicalAlias(e) => &e.json,
            Event::RoomCreate(e) => &e.json,
            Event::RoomGuestAccess(e) => &e.json,
            Event::RoomHistoryVisibility(e) => &e.json,
            Event::RoomJoinRules(e) => &e.json,
            Event::RoomMember(e) => &e.json,
            Event::RoomMessage(e) => &e.json,
            Event::RoomName(e) => &e.json,
            Event::RoomPowerLevels(e) => &e.json,
            Event::RoomRedaction(e) => &e.json,
            Event::RoomThirdPartyInvite(e) => &e.json,
            Event::RoomTopic(e) => &e.json,
            Event::Tag(e) => &e.json,
            Event::Typing(e) => &e.json,
            Event::Invalid(e) => &e.json,
            Event::Custom(e) => &e.json,
            Event::InvalidRoom(e) => &e.json,
            Event::CustomRoom(e) => &e.json,
            Event::InvalidState(e) => &e.json,
            Event::CustomState(e) => &e.json,
        }
    }

    /// The same event, as a member of the wider union.
    pub fn from_room_event(e: RoomEvent) -> (r: Event)
        ensures
            r.class() == e.class(),
            r.json() == e.json(),
            e.wf() ==> r.wf(),
    {
        match e {
            RoomEvent::CallAnswer(e) => Event::CallAnswer(e),
            RoomEvent::CallCandidates(e) => Event::CallCandidates(e),
            RoomEvent::CallHangup(e) => Event::CallHangup(e),
            RoomEvent::CallInvite(e) => Event::CallInvite(e),
            RoomEvent::RoomAliases(e) => Event::RoomAliases(e),
            RoomEvent::RoomAvatar(e) => Event::RoomAvatar(e),
            RoomEvent::RoomCanonicalAlias(e) => Event::RoomCanonicalAlias(e),
            RoomEvent::RoomCreate(e) => Event::RoomCreate(e),
            RoomEvent::RoomGuestAccess(e) => Event::RoomGuestAccess(e),
            RoomEvent::RoomHistoryVisibility(e) => Event::RoomHistoryVisibility(e),
            RoomEvent::RoomJoinRules(e) => Event::RoomJoinRules(e),
            RoomEvent::RoomMember(e) => Event::RoomMember(e),
            RoomEvent::RoomMessage(e) => Event::RoomMessage(e),
            RoomEvent::RoomName(e) => Event::RoomName(e),
            RoomEvent::RoomPowerLevels(e) => Event::RoomPowerLevels(e),
            RoomEvent::RoomRedaction(e) => Event::RoomRedaction(e),
            RoomEvent::RoomThirdPartyInvite(e) => Event::RoomThirdPartyInvite(e),
            RoomEvent::RoomTopic(e) => Event::RoomTopic(e),
            RoomEvent::InvalidRoom(e) => Event::InvalidRoom(e),
            RoomEvent::CustomRoom(e) => Event::CustomRoom(e),
            RoomEvent::InvalidState(e) => Event::InvalidState(e),
            RoomEvent::CustomState(e) => Event::CustomState(e),
        }
    }
}

/// A room event or state event.
#[derive(Debug)]
pub enum RoomEvent {
    /// The answer to a VoIP call: `m.call.answer`.
    CallAnswer(KnownEvent),
    /// ICE candidates for a VoIP call: `m.call.candidates`.
    CallCandidates(KnownEvent),
    /// The end of a VoIP call: `m.call.hangup`.
    CallHangup(KnownEvent),
    /// An invitation to a VoIP call: `m.call.invite`.
    CallInvite(KnownEvent),
    /// The aliases a server holds for a room: `m.room.aliases`.
    RoomAliases(KnownEvent),
    /// The room's picture: `m.room.avatar`.
    RoomAvatar(KnownEvent),
    /// The room's main alias: `m.room.canonical_alias`.
    RoomCanonicalAlias(KnownEvent),
    /// The first event of a room: `m.room.create`.
    RoomCreate(KnownEvent),
    /// Whether guests may join: `m.room.guest_access`.
    RoomGuestAccess(KnownEvent),
    /// Who may read the room's past events: `m.room.history_visibility`.
    RoomHistoryVisibility(KnownEvent),
    /// Who may join the room: `m.room.join_rules`.
    RoomJoinRules(KnownEvent),
    /// A user's membership of the room: `m.room.member`.
    RoomMember(KnownEvent),
    /// A message in the room: `m.room.message`.
    RoomMessage(KnownEvent),
    /// The room's name: `m.room.name`.
    RoomName(KnownEvent),
    /// Who may do what in the room: `m.room.power_levels`.
    RoomPowerLevels(KnownEvent),
    /// The removal of an earlier event's content: `m.room.redaction`.
    RoomRedaction(KnownEvent),
    /// An invitation by a third party identifier: `m.room.third_party_invite`.
    RoomThirdPartyInvite(KnownEvent),
    /// The room's topic: `m.room.topic`.
    RoomTopic(KnownEvent),
    /// Any known room event, but with missing or invalid contents.
    InvalidRoom(InvalidEvent),
    /// Any room event that is not part of the specification.
    CustomRoom(CustomEvent),
    /// Any known state event, but with missing or invalid contents.
    InvalidState(InvalidEvent),
    /// Any state event that is not part of the specification.
    CustomState(CustomEvent),
}

impl RoomEvent {
    /// What the value is, short of its document.
    pub open spec fn class(self) -> Class {
        match self {
            RoomEvent::CallAnswer(_) => Class::Known(EventType::CallAnswer),
            RoomEvent::CallCandidates(_) => Class::Known(EventType::CallCandidates),
            RoomEvent::CallHangup(_) => Class::Known(EventType::CallHangup),
            RoomEvent::CallInvite(_) => Class::Known(EventType::CallInvite),
            RoomEvent::RoomAliases(_) => Class::Known(EventType::RoomAliases),
            RoomEvent::RoomAvatar(_) => Class::Known(EventType::RoomAvatar),
            RoomEvent::RoomCanonicalAlias(_) => Class::Known(EventType::RoomCanonicalAlias),
            RoomEvent::RoomCreate(_) => Class::Known(EventType::RoomCreate),
            RoomEvent::RoomGuestAccess(_) => Class::Known(EventType::RoomGuestAccess),
            RoomEvent::RoomHistoryVisibility(_) => Class::Known(EventType::RoomHistoryVisibility),
            RoomEvent::RoomJoinRules(_) => Class::Known(EventType::RoomJoinRules),
            RoomEvent::RoomMember(_) => Class::Known(EventType::RoomMember),
            RoomEvent::RoomMessage(_) => Class::Known(EventType::RoomMessage),
            RoomEvent::RoomName(_) => Class::Known(EventType::RoomName),
            RoomEvent::RoomPowerLevels(_) => Class::Known(EventType::RoomPowerLevels),
            RoomEvent::RoomRedaction(_) => Class::Known(EventType::RoomRedaction),
            RoomEvent::RoomThirdPartyInvite(_) => Class::Known(EventType::RoomThirdPartyInvite),
            RoomEvent::RoomTopic(_) => Class::Known(EventType::RoomTopic),
            RoomEvent::InvalidRoom(e) => Class::Invalid(Level::Room, e.error@),
            RoomEvent::CustomRoom(_) => Class::Custom(Level::Room),
            RoomEvent::InvalidState(e) => Class::Invalid(Level::State, e.error@),
            RoomEvent::CustomState(_) => Class::Custom(Level::State),
        }
    }

    /// The document of the event held.
    pub open spec fn json(self) -> Json {
        match self {
            RoomEvent::CallAnswer(e) => e.json,
            RoomEvent::CallCandidates(e) => e.json,
            RoomEvent::CallHangup(e) => e.json,
            RoomEvent::CallInvite(e) => e.json,
            RoomEvent::RoomAliases(e) => e.json,
            RoomEvent::RoomAvatar(e) => e.json,
            RoomEvent::RoomCanonicalAlias(e) => e.json,
            RoomEvent::RoomCreate(e) => e.json,
            RoomEvent::RoomGuestAccess(e) => e.json,
            RoomEvent::RoomHistoryVisibility(e) => e.json,
            RoomEvent::RoomJoinRules(e) => e.json,
            RoomEvent::RoomMember(e) => e.json,
            RoomEvent::RoomMessage(e) => e.json,
            RoomEvent::RoomName(e) => e.json,
            RoomEvent::RoomPowerLevels(e) => e.json,
            RoomEvent::RoomRedaction(e) => e.json,
            RoomEvent::RoomThirdPartyInvite(e) => e.json,
            RoomEvent::RoomTopic(e) => e.json,
            RoomEvent::InvalidRoom(e) => e.json,
            RoomEvent::CustomRoom(e) => e.json,
            RoomEvent::InvalidState(e) => e.json,
            RoomEvent::CustomState(e) => e.json,
        }
    }

    /// Whether the event held is well formed and of the variant's kind and level.
    pub open spec fn wf(self) -> bool {
        match self {
            RoomEvent::CallAnswer(e) => e.kind == EventType::CallAnswer && e.wf(),
            RoomEvent::CallCandidates(e) => e.kind == EventType::CallCandidates && e.wf(),
            RoomEvent::CallHangup(e) => e.kind == EventType::CallHangup && e.wf(),
            RoomEvent::CallInvite(e) => e.kind == EventType::CallInvite && e.wf(),
            RoomEvent::RoomAliases(e) => e.kind == EventType::RoomAliases && e.wf(),
            RoomEvent::RoomAvatar(e) => e.kind == EventType::RoomAvatar && e.wf(),
            RoomEvent::RoomCanonicalAlias(e) => e.kind == EventType::RoomCanonicalAlias && e.wf(),
            RoomEvent::RoomCreate(e) => e.kind == EventType::RoomCreate && e.wf(),
            RoomEvent::RoomGuestAccess(e) => e.kind == EventType::RoomGuestAccess && e.wf(),
            RoomEvent::RoomHistoryVisibility(e) => e.kind == EventType::RoomHistoryVisibility && e.wf(),
            RoomEvent::RoomJoinRules(e) => e.kind == EventType::RoomJoinRules && e.wf(),
            RoomEvent::RoomMember(e) => e.kind == EventType::RoomMember && e.wf(),
            RoomEvent::RoomMessage(e) => e.kind == EventType::RoomMessage && e.wf(),
            RoomEvent::RoomName(e) => e.kind == EventType::RoomName && e.wf(),
            RoomEvent::RoomPowerLevels(e) => e.kind == EventType::RoomPowerLevels && e.wf(),
            RoomEvent::RoomRedaction(e) => e.kind == EventType::RoomRedaction && e.wf(),
            RoomEvent::RoomThirdPartyInvite(e) => e.kind == EventType::RoomThirdPartyInvite && e.wf(),
            RoomEvent::RoomTopic(e) => e.kind == EventType::RoomTopic && e.wf(),
            RoomEvent::InvalidRoom(e) => e.wf_at(Level::Room),
            RoomEvent::CustomRoom(e) => e.wf_at(Level::Room),
            RoomEvent::InvalidState(e) => e.wf_at(Level::State),
            RoomEvent::CustomState(e) => e.wf_at(Level::State),
        }
    }

    /// The variant that holds an event of a registered kind.
    pub open spec fn known(e: KnownEvent) -> RoomEvent {
        match e.kind {
            EventType::CallAnswer => RoomEvent::CallAnswer(e),
            EventType::CallCandidates => RoomEvent::CallCandidates(e),
            EventType::CallHangup => RoomEvent::CallHangup(e),
            EventType::CallInvite => RoomEvent::CallInvite(e),
            EventType::RoomAliases => RoomEvent::RoomAliases(e),
            EventType::RoomAvatar => RoomEvent::RoomAvatar(e),
            EventType::RoomCanonicalAlias => RoomEvent::RoomCanonicalAlias(e),
            EventType::RoomCreate => RoomEvent::RoomCreate(e),
            EventType::RoomGuestAccess => RoomEvent::RoomGuestAccess(e),
            EventType::RoomHistoryVisibility => RoomEvent::RoomHistoryVisibility(e),
            EventType::RoomJoinRules => RoomEvent::RoomJoinRules(e),
            EventType::RoomMember => RoomEvent::RoomMember(e),
            EventType::RoomMessage => RoomEvent::RoomMessage(e),
            EventType::RoomName => RoomEvent::RoomName(e),
            EventType::RoomPowerLevels => RoomEvent::RoomPowerLevels(e),
            EventType::RoomRedaction => RoomEvent::RoomRedaction(e),
            EventType::RoomThirdPartyInvite => RoomEvent::RoomThirdPartyInvite(e),
            EventType::RoomTopic => RoomEvent::RoomTopic(e),
            _ => arbitrary(),
        }
    }

    /// Whether `r` is what decoding `doc` as a room or state event gives.
    pub open spec fn decoded(doc: Json, r: Result<RoomEvent, DecodeError>) -> bool {
        match outcome(Scope::Room, doc) {
            Ok(c) => r matches Ok(e) && e.class() == c && e.json() == doc && e.wf(),
            Err(x) => r == Err::<RoomEvent, DecodeError>(x),
        }
    }

    /// Places an event of a registered kind in its variant.
    pub fn from_known(e: KnownEvent) -> (r: RoomEvent)
        requires
            !(e.kind is Custom),
            accepts(Scope::Room, level_of(e.kind)),
        ensures
            r == RoomEvent::known(e),
            r.class() == Class::Known(e.kind),
            r.json() == e.json,
            e.wf() ==> r.wf(),
    {
        match e.kind {
            EventType::CallAnswer => RoomEvent::CallAnswer(e),
            EventType::CallCandidates => RoomEvent::CallCandidates(e),
            EventType::CallHangup => RoomEvent::CallHangup(e),
            EventType::CallInvite => RoomEvent::CallInvite(e),
            EventType::RoomAliases => RoomEvent::RoomAliases(e),
            EventType::RoomAvatar => RoomEvent::RoomAvatar(e),
            EventType::RoomCanonicalAlias => RoomEvent::RoomCanonicalAlias(e),
            EventType::RoomCreate => RoomEvent::RoomCreate(e),
            EventType::RoomGuestAccess => RoomEvent::RoomGuestAccess(e),
            EventType::RoomHistoryVisibility => RoomEvent::RoomHistoryVisibility(e),
            EventType::RoomJoinRules => RoomEvent::RoomJoinRules(e),
            EventType::RoomMember => RoomEvent::RoomMember(e),
            EventType::RoomMessage => RoomEvent::RoomMessage(e),
            EventType::RoomName => RoomEvent::RoomName(e),
            EventType::RoomPowerLevels => RoomEvent::RoomPowerLevels(e),
            EventType::RoomRedaction => RoomEvent::RoomRedaction(e),
            EventType::RoomThirdPartyInvite => RoomEvent::RoomThirdPartyInvite(e),
            EventType::RoomTopic => RoomEvent::RoomTopic(e),
            _ => unreached(),
        }
    }

    /// Places a decoded event in its variant.
    fn from_decoded(d: Decoded) -> (r: RoomEvent)
        requires
            d.wf(),
            d matches Decoded::Known(e) ==> accepts(Scope::Room, level_of(e.kind)),
            d matches Decoded::Invalid(l, _) ==> accepts(Scope::Room, l),
            d matches Decoded::Custom(l, _) ==> accepts(Scope::Room, l),
        ensures
            r.class() == d.class(),
            r.json() == d.json(),
            r.wf(),
    {
        match d {
            Decoded::Known(e) => RoomEvent::from_known(e),
            Decoded::Invalid(Level::Room, e) => RoomEvent::InvalidRoom(e),
            Decoded::Invalid(Level::State, e) => RoomEvent::InvalidState(e),
            Decoded::Invalid(_, _) => unreached(),
            Decoded::Custom(Level::Room, e) => RoomEvent::CustomRoom(e),
            Decoded::Custom(Level::State, e) => RoomEvent::CustomState(e),
            Decoded::Custom(_, _) => unreached(),
        }
    }

    /// Decodes a document as a room or state event.
    ///
    /// A registered kind outside this union is refused; a registered kind whose document is
    /// malformed is kept as the invalid event of its level; a custom type is kept in the shape
    /// that its fields give it.
    pub fn from_json(doc: Json) -> (r: Result<RoomEvent, DecodeError>)
        ensures
            RoomEvent::decoded(doc, r),
    {
        match classify(Scope::Room, doc) {
            Ok(d) => Ok(RoomEvent::from_decoded(d)),
            Err(x) => Err(x),
        }
    }

    /// The document form of the event held: the event encodes itself, and the union adds
    /// nothing of its own.
    pub fn into_json(self) -> (r: Json)
        ensures
            r == self.json(),
    {
        match self {
            RoomEvent::CallAnswer(e) => e.json,
            RoomEvent::CallCandidates(e) => e.json,
            RoomEvent::CallHangup(e) => e.json,
            RoomEvent::CallInvite(e) => e.json,
            RoomEvent::RoomAliases(e) => e.json,
            RoomEvent::RoomAvatar(e) => e.json,
            RoomEvent::RoomCanonicalAlias(e) => e.json,
            RoomEvent::RoomCreate(e) => e.json,
            RoomEvent::RoomGuestAccess(e) => e.json,
            RoomEvent::RoomHistoryVisibility(e) => e.json,
            RoomEvent::RoomJoinRules(e) => e.json,
            RoomEvent::RoomMember(e) => e.json,
            RoomEvent::RoomMessage(e) => e.json,
            RoomEvent::RoomName(e) => e.json,
            RoomEvent::RoomPowerLevels(e) => e.json,
            RoomEvent::RoomRedaction(e) => e.json,
            RoomEvent::RoomThirdPartyInvite(e) => e.json,
            RoomEvent::RoomTopic(e) => e.json,
            RoomEvent::InvalidRoom(e) => e.json,
            RoomEvent::CustomRoom(e) => e.json,
            RoomEvent::InvalidState(e) => e.json,
            RoomEvent::CustomState(e) => e.json,
        }
    }

    /// The document of the event held.
    pub fn as_json(&self) -> (r: &Json)
        ensures
            *r == self.json(),
    {
        match self {
            RoomEvent::CallAnswer(e) => &e.json,
            RoomEvent::CallCandidates(e) => &e.json,
            RoomEvent::CallHangup(e) => &e.json,
            RoomEvent::CallInvite(e) => &e.json,
            RoomEvent::RoomAliases(e) => &e.json,
            RoomEvent::RoomAvatar(e) => &e.json,
            RoomEvent::RoomCanonicalAlias(e) => &e.json,
            RoomEvent::RoomCreate(e) => &e.json,
            RoomEvent::RoomGuestAccess(e) => &e.json,
            RoomEvent::RoomHistoryVisibility(e) => &e.json,
            RoomEvent::RoomJoinRules(e) => &e.json,
            RoomEvent::RoomMember(e) => &e.json,
            RoomEvent::RoomMessage(e) => &e.json,
            RoomEvent::RoomName(e) => &e.json,
            RoomEvent::RoomPowerLevels(e) => &e.json,
            RoomEvent::RoomRedaction(e) => &e.json,
            RoomEvent::RoomThirdPartyInvite(e) => &e.json,
            RoomEvent::RoomTopic(e) => &e.json,
            RoomEvent::InvalidRoom(e) => &e.json,
            RoomEvent::CustomRoom(e) => &e.json,
            RoomEvent::InvalidState(e) => &e.json,
            RoomEvent::CustomState(e) => &e.json,
        }
    }

    /// The same event, as a member of the wider union.
    pub fn from_state_event(e: StateEvent) -> (r: RoomEvent)
        ensures
            r.class() == e.class(),
            r.json() == e.json(),
            e.wf() ==> r.wf(),
    {
        match e {
            StateEvent::RoomAliases(e) => RoomEvent::RoomAliases(e),
            StateEvent::RoomAvatar(e) => RoomEvent::RoomAvatar(e),
            StateEvent::RoomCanonicalAlias(e) => RoomEvent::RoomCanonicalAlias(e),
            StateEvent::RoomCreate(e) => RoomEvent::RoomCreate(e),
            StateEvent::RoomGuestAccess(e) => RoomEvent::RoomGuestAccess(e),
            StateEvent::RoomHistoryVisibility(e) => RoomEvent::RoomHistoryVisibility(e),
            StateEvent::RoomJoinRules(e) => RoomEvent::RoomJoinRules(e),
            StateEvent::RoomMember(e) => RoomEvent::RoomMember(e),
            StateEvent::RoomName(e) => RoomEvent::RoomName(e),
            StateEvent::RoomPowerLevels(e) => RoomEvent::RoomPowerLevels(e),
            StateEvent::RoomThirdPartyInvite(e) => RoomEvent::RoomThirdPartyInvite(e),
            StateEvent::RoomTopic(e) => RoomEvent::RoomTopic(e),
            StateEvent::InvalidState(e) => RoomEvent::InvalidState(e),
            StateEvent::CustomState(e) => RoomEvent::CustomState(e),
        }
    }
}

/// A state event.
#[derive(Debug)]
pub enum StateEvent {
    /// The aliases a server holds for a room: `m.room.aliases`.
    RoomAliases(KnownEvent),
    /// The room's picture: `m.room.avatar`.
    RoomAvatar(KnownEvent),
    /// The room's main alias: `m.room.canonical_alias`.
    RoomCanonicalAlias(KnownEvent),
    /// The first event of a room: `m.room.create`.
    RoomCreate(KnownEvent),
    /// Whether guests may join: `m.room.guest_access`.
    RoomGuestAccess(KnownEvent),
    /// Who may read the room's past events: `m.room.history_visibility`.
    RoomHistoryVisibility(KnownEvent),
    /// Who may join the room: `m.room.join_rules`.
    RoomJoinRules(KnownEvent),
    /// A user's membership of the room: `m.room.member`.
    RoomMember(KnownEvent),
    /// The room's name: `m.room.name`.
    RoomName(KnownEvent),
    /// Who may do what in the room: `m.room.power_levels`.
    RoomPowerLevels(KnownEvent),
    /// An invitation by a third party identifier: `m.room.third_party_invite`.
    RoomThirdPartyInvite(KnownEvent),
    /// The room's topic: `m.room.topic`.
    RoomTopic(KnownEvent),
    /// Any known state event, but with missing or invalid contents.
    InvalidState(InvalidEvent),
    /// Any state event that is not part of the specification.
    CustomState(CustomEvent),
}

impl StateEvent {
    /// What the value is, short of its document.
    pub open spec fn class(self) -> Class {
        match self {
            StateEvent::RoomAliases(_) => Class::Known(EventType::RoomAliases),
            StateEvent::RoomAvatar(_) => Class::Known(EventType::RoomAvatar),
            StateEvent::RoomCanonicalAlias(_) => Class::Known(EventType::RoomCanonicalAlias),
            StateEvent::RoomCreate(_) => Class::Known(EventType::RoomCreate),
            StateEvent::RoomGuestAccess(_) => Class::Known(EventType::RoomGuestAccess),
            StateEvent::RoomHistoryVisibility(_) => Class::Known(EventType::RoomHistoryVisibility),
            StateEvent::RoomJoinRules(_) => Class::Known(EventType::RoomJoinRules),
            StateEvent::RoomMember(_) => Class::Known(EventType::RoomMember),
            StateEvent::RoomName(_) => Class::Known(EventType::RoomName),
            StateEvent::RoomPowerLevels(_) => Class::Known(EventType::RoomPowerLevels),
            StateEvent::RoomThirdPartyInvite(_) => Class::Known(EventType::RoomThirdPartyInvite),
            StateEvent::RoomTopic(_) => Class::Known(EventType::RoomTopic),
            StateEvent::InvalidState(e) => Class::Invalid(Level::State, e.error@),
            StateEvent::CustomState(_) => Class::Custom(Level::State),
        }
    }

    /// The document of the event held.
    pub open spec fn json(self) -> Json {
        match self {
            StateEvent::RoomAliases(e) => e.json,
            StateEvent::RoomAvatar(e) => e.json,
            StateEvent::RoomCanonicalAlias(e) => e.json,
            StateEvent::RoomCreate(e) => e.json,
            StateEvent::RoomGuestAccess(e) => e.json,
            StateEvent::RoomHistoryVisibility(e) => e.json,
            StateEvent::RoomJoinRules(e) => e.json,
            StateEvent::RoomMember(e) => e.json,
            StateEvent::RoomName(e) => e.json,
            StateEvent::RoomPowerLevels(e) => e.json,
            StateEvent::RoomThirdPartyInvite(e) => e.json,
            StateEvent::RoomTopic(e) => e.json,
            StateEvent::InvalidState(e) => e.json,
            StateEvent::CustomState(e) => e.json,
        }
    }

    /// Whether the event held is well formed and of the variant's kind and level.
    pub open spec fn wf(self) -> bool {
        match self {
            StateEvent::RoomAliases(e) => e.kind == EventType::RoomAliases && e.wf(),
            StateEvent::RoomAvatar(e) => e.kind == EventType::RoomAvatar && e.wf(),
            StateEvent::RoomCanonicalAlias(e) => e.kind == EventType::RoomCanonicalAlias && e.wf(),
            StateEvent::RoomCreate(e) => e.kind == EventType::RoomCreate && e.wf(),
            StateEvent::RoomGuestAccess(e) => e.kind == EventType::RoomGuestAccess && e.wf(),
            StateEvent::RoomHistoryVisibility(e) => e.kind == EventType::RoomHistoryVisibility && e.wf(),
            StateEvent::RoomJoinRules(e) => e.kind == EventType::RoomJoinRules && e.wf(),
            StateEvent::RoomMember(e) => e.kind == EventType::RoomMember && e.wf(),
            StateEvent::RoomName(e) => e.kind == EventType::RoomName && e.wf(),
            StateEvent::RoomPowerLevels(e) => e.kind == EventType::RoomPowerLevels && e.wf(),
            StateEvent::RoomThirdPartyInvite(e) => e.kind == EventType::RoomThirdPartyInvite && e.wf(),
            StateEvent::RoomTopic(e) => e.kind == EventType::RoomTopic && e.wf(),
            StateEvent::InvalidState(e) => e.wf_at(Level::State),
            StateEvent::CustomState(e) => e.wf_at(Level::State),
        }
    }

    /// The variant that holds an event of a registered kind.
    pub open spec fn known(e: KnownEvent) -> StateEvent {
        match e.kind {
            EventType::RoomAliases => StateEvent::RoomAliases(e),
            EventType::RoomAvatar => StateEvent::RoomAvatar(e),
            EventType::RoomCanonicalAlias => StateEvent::RoomCanonicalAlias(e),
            EventType::RoomCreate => StateEvent::RoomCreate(e),
            EventType::RoomGuestAccess => StateEvent::RoomGuestAccess(e),
            EventType::RoomHistoryVisibility => StateEvent::RoomHistoryVisibility(e),
            EventType::RoomJoinRules => StateEvent::RoomJoinRules(e),
            EventType::RoomMember => StateEvent::RoomMember(e),
            EventType::RoomName => StateEvent::RoomName(e),
            EventType::RoomPowerLevels => StateEvent::RoomPowerLevels(e),
            EventType::RoomThirdPartyInvite => StateEvent::RoomThirdPartyInvite(e),
            EventType::RoomTopic => StateEvent::RoomTopic(e),
            _ => arbitrary(),
        }
    }

    /// Whether `r` is what decoding `doc` as a state event gives.
    pub open spec fn decoded(doc: Json, r: Result<StateEvent, DecodeError>) -> bool {
        match outcome(Scope::State, doc) {
            Ok(c) => r matches Ok(e) && e.class() == c && e.json() == doc && e.wf(),
            Err(x) => r == Err::<StateEvent, DecodeError>(x),
        }
    }

    /// Places an event of a registered kind in its variant.
    pub fn from_known(e: KnownEvent) -> (r: StateEvent)
        requires
            !(e.kind is Custom),
            accepts(Scope::State, level_of(e.kind)),
        ensures
            r == StateEvent::known(e),
            r.class() == Class::Known(e.kind),
            r.json() == e.json,
            e.wf() ==> r.wf(),
    {
        match e.kind {
            EventType::RoomAliases => StateEvent::RoomAliases(e),
            EventType::RoomAvatar => StateEvent::RoomAvatar(e),
            EventType::RoomCanonicalAlias => StateEvent::RoomCanonicalAlias(e),
            EventType::RoomCreate => StateEvent::RoomCreate(e),
            EventType::RoomGuestAccess => StateEvent::RoomGuestAccess(e),
            EventType::RoomHistoryVisibility => StateEvent::RoomHistoryVisibility(e),
            EventType::RoomJoinRules => StateEvent::RoomJoinRules(e),
            EventType::RoomMember => StateEvent::RoomMember(e),
            EventType::RoomName => StateEvent::RoomName(e),
            EventType::RoomPowerLevels => StateEvent::RoomPowerLevels(e),
            EventType::RoomThirdPartyInvite => StateEvent::RoomThirdPartyInvite(e),
            EventType::RoomTopic => StateEvent::RoomTopic(e),
            _ => unreached(),
        }
    }

    /// Places a decoded event in its variant.
    fn from_decoded(d: Decoded) -> (r: StateEvent)
        requires
            d.wf(),
            d matches Decoded::Known(e) ==> accepts(Scope::State, level_of(e.kind)),
            d matches Decoded::Invalid(l, _) ==> accepts(Scope::State, l),
            d matches Decoded::Custom(l, _) ==> accepts(Scope::State, l),
        ensures
            r.class() == d.class(),
            r.json() == d.json(),
            r.wf(),
    {
        match d {
            Decoded::Known(e) => StateEvent::from_known(e),
            Decoded::Invalid(Level::State, e) => StateEvent::InvalidState(e),
            Decoded::Invalid(_, _) => unreached(),
            Decoded::Custom(Level::State, e) => StateEvent::CustomState(e),
            Decoded::Custom(_, _) => unreached(),
        }
    }

    /// Decodes a document as a state event.
    ///
    /// A registered kind outside this union is refused; a registered kind whose document is
    /// malformed is kept as the invalid event of its level; a custom type is kept in the shape
    /// that its fields give it.
    pub fn from_json(doc: Json) -> (r: Result<StateEvent, DecodeError>)
        ensures
            StateEvent::decoded(doc, r),
    {
        match classify(Scope::State, doc) {
            Ok(d) => Ok(StateEvent::from_decoded(d)),
            Err(x) => Err(x),
        }
    }

    /// The document form of the event held: the event encodes itself, and the union adds
    /// nothing of its own.
    pub fn into_json(self) -> (r: Json)
        ensures
            r == self.json(),
    {
        match self {
            StateEvent::RoomAliases(e) => e.json,
            StateEvent::RoomAvatar(e) => e.json,
            StateEvent::RoomCanonicalAlias(e) => e.json,
            StateEvent::RoomCreate(e) => e.json,
            StateEvent::RoomGuestAccess(e) => e.json,
            StateEvent::RoomHistoryVisibility(e) => e.json,
            StateEvent::RoomJoinRules(e) => e.json,
            StateEvent::RoomMember(e) => e.json,
            StateEvent::RoomName(e) => e.json,
            StateEvent::RoomPowerLevels(e) => e.json,
            StateEvent::RoomThirdPartyInvite(e) => e.json,
            StateEvent::RoomTopic(e) => e.json,
            StateEvent::InvalidState(e) => e.json,
            StateEvent::CustomState(e) => e.json,
        }
    }

    /// The document of the event held.
    pub fn as_json(&self) -> (r: &Json)
        ensures
            *r == self.json(),
    {
        match self {
            StateEvent::RoomAliases(e) => &e.json,
            StateEvent::RoomAvatar(e) => &e.json,
            StateEvent::RoomCanonicalAlias(e) => &e.json,
            StateEvent::RoomCreate(e) => &e.json,
            StateEvent::RoomGuestAccess(e) => &e.json,
            StateEvent::RoomHistoryVisibility(e) => &e.json,
            StateEvent::RoomJoinRules(e) => &e.json,
            StateEvent::RoomMember(e) => &e.json,
            StateEvent::RoomName(e) => &e.json,
            StateEvent::RoomPowerLevels(e) => &e.json,
            StateEvent::RoomThirdPartyInvite(e) => &e.json,
            StateEvent::RoomTopic(e) => &e.json,
            StateEvent::InvalidState(e) => &e.json,
            StateEvent::CustomState(e) => &e.json,
        }
    }
}

/// A document that decodes as a state event also decodes as a room event and as an event of
/// any level, and all three results are the same event: same kind or fallback, same document.
pub proof fn lemma_state_decodes_everywhere(
    doc: Json,
    s: Result<StateEvent, DecodeError>,
    r: Result<RoomEvent, DecodeError>,
    e: Result<Event, DecodeError>,
)
    requires
        StateEvent::decoded(doc, s),
        RoomEvent::decoded(doc, r),
        Event::decoded(doc, e),
        s is Ok,
    ensures
        r matches Ok(rv) && rv.class() == s->Ok_0.class() && rv.json() == s->Ok_0.json(),
        e matches Ok(ev) && ev.class() == s->Ok_0.class() && ev.json() == s->Ok_0.json(),
{
    lemma_state_within_room_within_all(doc);
}

} // verus!
