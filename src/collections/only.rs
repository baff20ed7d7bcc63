//! Unions over the event kinds that belong to exactly one taxonomy level.
use vstd::pervasive::unreached;
use vstd::prelude::*;

use crate::collections::all;
use crate::event_type::{EventType, Level};
use crate::events::{
    accepts, classify, lemma_known_outcome, level_of, outcome, Class, CustomEvent, DecodeError, Decoded, InvalidEvent,
    KnownEvent, Scope,
};
use crate::json::Json;

verus! {

/// A basic event.
#[derive(Debug)]
pub enum Event {
    /// A user's presence: `m.presence`.
    Presence(KnownEvent),
    /// Read receipts: `m.receipt`.
    Receipt(KnownEvent),
    /// A user's tags on a room: `m.tag`.
    Tag(KnownEvent),
    /// The users who are typing: `m.typing`.
    Typing(KnownEvent),
    /// Any known basic event, but with missing or invalid contents.
    Invalid(InvalidEvent),
    /// Any basic event that is not part of the specification.
    Custom(CustomEvent),
}

impl Event {
    /// What the value is, short of its document.
    pub open spec fn class(self) -> Class {
        match self {
            Event::Presence(_) => Class::Known(EventType::Presence),
            Event::Receipt(_) => Class::Known(EventType::Receipt),
            Event::Tag(_) => Class::Known(EventType::Tag),
            Event::Typing(_) => Class::Known(EventType::Typing),
            Event::Invalid(e) => Class::Invalid(Level::Basic, e.error@),
            Event::Custom(_) => Class::Custom(Level::Basic),
        }
    }

    /// The document of the event held.
    pub open spec fn json(self) -> Json {
        match self {
            Event::Presence(e) => e.json,
            Event::Receipt(e) => e.json,
            Event::Tag(e) => e.json,
            Event::Typing(e) => e.json,
            Event::Invalid(e) => e.json,
            Event::Custom(e) => e.json,
        }
    }

    /// Whether the event held is well formed and of the variant's kind and level.
    pub open spec fn wf(self) -> bool {
        match self {
            Event::Presence(e) => e.kind == EventType::Presence && e.wf(),
            Event::Receipt(e) => e.kind == EventType::Receipt && e.wf(),
            Event::Tag(e) => e.kind == EventType::Tag && e.wf(),
            Event::Typing(e) => e.kind == EventType::Typing && e.wf(),
            Event::Invalid(e) => e.wf_at(Level::Basic),
            Event::Custom(e) => e.wf_at(Level::Basic),
        }
    }

    /// The variant that holds an event of a registered kind.
    pub open spec fn known(e: KnownEvent) -> Event {
        match e.kind {
            EventType::Presence => Event::Presence(e),
            EventType::Receipt => Event::Receipt(e),
            EventType::Tag => Event::Tag(e),
            EventType::Typing => Event::Typing(e),
            _ => arbitrary(),
        }
    }

    /// Whether `r` is what decoding `doc` as a basic event that is nothing more gives.
    pub open spec fn decoded(doc: Json, r: Result<Event, DecodeError>) -> bool {
        match outcome(Scope::OnlyBasic, doc) {
            Ok(c) => r matches Ok(e) && e.class() == c && e.json() == doc && e.wf(),
            Err(x) => r == Err::<Event, DecodeError>(x),
        }
    }

    /// Places an event of a registered kind in its variant.
    pub fn from_known(e: KnownEvent) -> (r: Event)
        requires
            !(e.kind is Custom),
            accepts(Scope::OnlyBasic, level_of(e.kind)),
        ensures
            r == Event::known(e),
            r.class() == Class::Known(e.kind),
            r.json() == e.json,
            e.wf() ==> r.wf(),
    {
        match e.kind {
            EventType::Presence => Event::Presence(e),
            EventType::Receipt => Event::Receipt(e),
            EventType::Tag => Event::Tag(e),
            EventType::Typing => Event::Typing(e),
            _ => unreached(),
        }
    }

    /// Places a decoded event in its variant.
    fn from_decoded(d: Decoded) -> (r: Event)
        requires
            d.wf(),
            d matches Decoded::Known(e) ==> accepts(Scope::OnlyBasic, level_of(e.kind)),
            d matches Decoded::Invalid(l, _) ==> accepts(Scope::OnlyBasic, l),
            d matches Decoded::Custom(l, _) ==> accepts(Scope::OnlyBasic, l),
        ensures
            r.class() == d.class(),
            r.json() == d.json(),
            r.wf(),
    {
        match d {
            Decoded::Known(e) => Event::from_known(e),
            Decoded::Invalid(Level::Basic, e) => Event::Invalid(e),
            Decoded::Invalid(_, _) => unreached(),
            Decoded::Custom(Level::Basic, e) => Event::Custom(e),
            Decoded::Custom(_, _) => unreached(),
        }
    }

    /// Decodes a document as a basic event that is nothing more.
    ///
    /// A registered kind outside this union is refused; a registered kind whose document is
    /// malformed is kept as the invalid event of its level; a custom type is kept in the shape
    /// that its fields give it.
    pub fn from_json(doc: Json) -> (r: Result<Event, DecodeError>)
        ensures
            Event::decoded(doc, r),
    {
        match classify(Scope::OnlyBasic, doc) {
            Ok(d) => Ok(Event::from_decoded(d)),
            Err(x) => Err(x),
        }
    }

    /// The document form of the event held: the event encodes itself, and the union adds
    /// nothing of its own.
    pub fn into_json(self) -> (r: Json)
        ensures
            r == self.json(),
    {
        match self {
            Event::Presence(e) => e.json,
            Event::Receipt(e) => e.json,
            Event::Tag(e) => e.json,
            Event::Typing(e) => e.json,
            Event::Invalid(e) => e.json,
            Event::Custom(e) => e.json,
        }
    }

    /// The document of the event held.
    pub fn as_json(&self) -> (r: &Json)
        ensures
            *r == self.json(),
    {
        match self {
            Event::Presence(e) => &e.json,
            Event::Receipt(e) => &e.json,
            Event::Tag(e) => &e.json,
            Event::Typing(e) => &e.json,
            Event::Invalid(e) => &e.json,
            Event::Custom(e) => &e.json,
        }
    }

    /// The same event, as a member of the union over every level.
    pub fn into_event(self) -> (r: all::Event)
        ensures
            r.class() == self.class(),
            r.json() == self.json(),
            self.wf() ==> r.wf(),
    {
        match self {
            Event::Presence(e) => all::Event::Presence(e),
            Event::Receipt(e) => all::Event::Receipt(e),
            Event::Tag(e) => all::Event::Tag(e),
            Event::Typing(e) => all::Event::Typing(e),
            Event::Invalid(e) => all::Event::Invalid(e),
            Event::Custom(e) => all::Event::Custom(e),
        }
    }
}

/// A room event that is not a state event.
#[derive(Debug)]
pub enum RoomEvent {
    /// The answer to a VoIP call: `m.call.answer`.
    CallAnswer(KnownEvent),
    /// ICE candidates for a VoIP call: `m.call.candidates`.
    CallCandidates(KnownEvent),
    /// The end of a VoIP call: `m.call.hangup`.
    CallHangup(KnownEvent),
    /// An invitation to a VoIP call: `m.call.invite`.
    CallInvite(KnownEvent),
    /// A message in the room: `m.room.message`.
    RoomMessage(KnownEvent),
    /// The removal of an earlier event's content: `m.room.redaction`.
    RoomRedaction(KnownEvent),
    /// Any known room event, but with missing or invalid contents.
    InvalidRoom(InvalidEvent),
    /// Any room event that is not part of the specification.
    CustomRoom(CustomEvent),
}

impl RoomEvent {
    /// What the value is, short of its document.
    pub open spec fn class(self) -> Class {
        match self {
            RoomEvent::CallAnswer(_) => Class::Known(EventType::CallAnswer),
            RoomEvent::CallCandidates(_) => Class::Known(EventType::CallCandidates),
            RoomEvent::CallHangup(_) => Class::Known(EventType::CallHangup),
            RoomEvent::CallInvite(_) => Class::Known(EventType::CallInvite),
            RoomEvent::RoomMessage(_) => Class::Known(EventType::RoomMessage),
            RoomEvent::RoomRedaction(_) => Class::Known(EventType::RoomRedaction),
            RoomEvent::InvalidRoom(e) => Class::Invalid(Level::Room, e.error@),
            RoomEvent::CustomRoom(_) => Class::Custom(Level::Room),
        }
    }

    /// The document of the event held.
    pub open spec fn json(self) -> Json {
        match self {
            RoomEvent::CallAnswer(e) => e.json,
            RoomEvent::CallCandidates(e) => e.json,
            RoomEvent::CallHangup(e) => e.json,
            RoomEvent::CallInvite(e) => e.json,
            RoomEvent::RoomMessage(e) => e.json,
            RoomEvent::RoomRedaction(e) => e.json,
            RoomEvent::InvalidRoom(e) => e.json,
            RoomEvent::CustomRoom(e) => e.json,
        }
    }

    /// Whether the event held is well formed and of the variant's kind and level.
    pub open spec fn wf(self) -> bool {
        match self {
            RoomEvent::CallAnswer(e) => e.kind == EventType::CallAnswer && e.wf(),
            RoomEvent::CallCandidates(e) => e.kind == EventType::CallCandidates && e.wf(),
            RoomEvent::CallHangup(e) => e.kind == EventType::CallHangup && e.wf(),
            RoomEvent::CallInvite(e) => e.kind == EventType::CallInvite && e.wf(),
            RoomEvent::RoomMessage(e) => e.kind == EventType::RoomMessage && e.wf(),
            RoomEvent::RoomRedaction(e) => e.kind == EventType::RoomRedaction && e.wf(),
            RoomEvent::InvalidRoom(e) => e.wf_at(Level::Room),
            RoomEvent::CustomRoom(e) => e.wf_at(Level::Room),
        }
    }

    /// The variant that holds an event of a registered kind.
    pub open spec fn known(e: KnownEvent) -> RoomEvent {
        match e.kind {
            EventType::CallAnswer => RoomEvent::CallAnswer(e),
            EventType::CallCandidates => RoomEvent::CallCandidates(e),
            EventType::CallHangup => RoomEvent::CallHangup(e),
            EventType::CallInvite => RoomEvent::CallInvite(e),
            EventType::RoomMessage => RoomEvent::RoomMessage(e),
            EventType::RoomRedaction => RoomEvent::RoomRedaction(e),
            _ => arbitrary(),
        }
    }

    /// Whether `r` is what decoding `doc` as a room event that is not a state event gives.
    pub open spec fn decoded(doc: Json, r: Result<RoomEvent, DecodeError>) -> bool {
        match outcome(Scope::OnlyRoom, doc) {
            Ok(c) => r matches Ok(e) && e.class() == c && e.json() == doc && e.wf(),
            Err(x) => r == Err::<RoomEvent, DecodeError>(x),
        }
    }

    /// Places an event of a registered kind in its variant.
    pub fn from_known(e: KnownEvent) -> (r: RoomEvent)
        requires
            !(e.kind is Custom),
            accepts(Scope::OnlyRoom, level_of(e.kind)),
        ensures
            r == RoomEvent::known(e),
            r.class() == Class::Known(e.kind),
            r.json() == e.json,
            e.wf() ==> r.wf(),
    {
        match e.kind {
            EventType::CallAnswer => RoomEvent::CallAnswer(e),
            EventType::CallCandidates => RoomEvent::CallCandidates(e),
            EventType::CallHangup => RoomEvent::CallHangup(e),
            EventType::CallInvite => RoomEvent::CallInvite(e),
            EventType::RoomMessage => RoomEvent::RoomMessage(e),
            EventType::RoomRedaction => RoomEvent::RoomRedaction(e),
            _ => unreached(),
        }
    }

    /// Places a decoded event in its variant.
    fn from_decoded(d: Decoded) -> (r: RoomEvent)
        requires
            d.wf(),
            d matches Decoded::Known(e) ==> accepts(Scope::OnlyRoom, level_of(e.kind)),
            d matches Decoded::Invalid(l, _) ==> accepts(Scope::OnlyRoom, l),
            d matches Decoded::Custom(l, _) ==> accepts(Scope::OnlyRoom, l),
        ensures
            r.class() == d.class(),
            r.json() == d.json(),
            r.wf(),
    {
        match d {
            Decoded::Known(e) => RoomEvent::from_known(e),
            Decoded::Invalid(Level::Room, e) => RoomEvent::InvalidRoom(e),
            Decoded::Invalid(_, _) => unreached(),
            Decoded::Custom(Level::Room, e) => RoomEvent::CustomRoom(e),
            Decoded::Custom(_, _) => unreached(),
        }
    }

    /// Decodes a document as a room event that is not a state event.
    ///
    /// A registered kind outside this union is refused; a registered kind whose document is
    /// malformed is kept as the invalid event of its level; a custom type is kept in the shape
    /// that its fields give it.
    pub fn from_json(doc: Json) -> (r: Result<RoomEvent, DecodeError>)
        ensures
            RoomEvent::decoded(doc, r),
    {
        match classify(Scope::OnlyRoom, doc) {
            Ok(d) => Ok(RoomEvent::from_decoded(d)),
            Err(x) => Err(x),
        }
    }

    /// The document form of the event held: the event encodes itself, and the union adds
    /// nothing of its own.
    pub fn into_json(self) -> (r: Json)
        ensures
            r == self.json(),
    {
        match self {
            RoomEvent::CallAnswer(e) => e.json,
            RoomEvent::CallCandidates(e) => e.json,
            RoomEvent::CallHangup(e) => e.json,
            RoomEvent::CallInvite(e) => e.json,
            RoomEvent::RoomMessage(e) => e.json,
            RoomEvent::RoomRedaction(e) => e.json,
            RoomEvent::InvalidRoom(e) => e.json,
            RoomEvent::CustomRoom(e) => e.json,
        }
    }

    /// The document of the event held.
    pub fn as_json(&self) -> (r: &Json)
        ensures
            *r == self.json(),
    {
        match self {
            RoomEvent::CallAnswer(e) => &e.json,
            RoomEvent::CallCandidates(e) => &e.json,
            RoomEvent::CallHangup(e) => &e.json,
            RoomEvent::CallInvite(e) => &e.json,
            RoomEvent::RoomMessage(e) => &e.json,
            RoomEvent::RoomRedaction(e) => &e.json,
            RoomEvent::InvalidRoom(e) => &e.json,
            RoomEvent::CustomRoom(e) => &e.json,
        }
    }

    /// The same event, as a member of the union over room and state events.
    pub fn into_room_event(self) -> (r: all::RoomEvent)
        ensures
            r.class() == self.class(),
            r.json() == self.json(),
            self.wf() ==> r.wf(),
    {
        match self {
            RoomEvent::CallAnswer(e) => all::RoomEvent::CallAnswer(e),
            RoomEvent::CallCandidates(e) => all::RoomEvent::CallCandidates(e),
            RoomEvent::CallHangup(e) => all::RoomEvent::CallHangup(e),
            RoomEvent::CallInvite(e) => all::RoomEvent::CallInvite(e),
            RoomEvent::RoomMessage(e) => all::RoomEvent::RoomMessage(e),
            RoomEvent::RoomRedaction(e) => all::RoomEvent::RoomRedaction(e),
            RoomEvent::InvalidRoom(e) => all::RoomEvent::InvalidRoom(e),
            RoomEvent::CustomRoom(e) => all::RoomEvent::CustomRoom(e),
        }
    }
}

} // verus!
