//! Stripped-down versions of certain state events.
use vstd::prelude::*;

use crate::event_type::EventType;
use crate::json::{lemma_texts_differ, push_entry, same_text, Json};

verus! {

/// The state kind, among those that may be stripped, whose tag is `t`, if any.
pub open spec fn stripped_kind(t: Seq<char>) -> Option<EventType> {
    if t == "m.room.avatar"@ {
        Some(EventType::RoomAvatar)
    } else if t == "m.room.canonical_alias"@ {
        Some(EventType::RoomCanonicalAlias)
    } else if t == "m.room.join_rules"@ {
        Some(EventType::RoomJoinRules)
    } else if t == "m.room.name"@ {
        Some(EventType::RoomName)
    } else {
        None
    }
}

/// Whether `j` is a well-formed stripped state event.
pub open spec fn stripped_ok(j: Json) -> bool {
    &&& j.text("type"@) matches Some(t) && stripped_kind(t) is Some
    &&& j.text("state_key"@) is Some
    &&& j.has_object("content"@)
}

/// Whether `a` holds only well-formed stripped state events.
pub open spec fn stripped_list(a: Seq<Json>) -> bool {
    forall|i: int| 0 <= i < a.len() ==> stripped_ok(#[trigger] a[i])
}

/// Whether the member event `doc` holds, as its `invite_room_state`, nothing, null, or a
/// list of stripped state events.
pub open spec fn optional_invite_room_state(doc: Json) -> bool {
    match doc.field("invite_room_state"@) {
        None => true,
        Some(Json::Null) => true,
        Some(Json::Array(a)) => stripped_list(a@),
        _ => false,
    }
}

/// Whether `j` is a well-formed stripped state event.
pub fn check_stripped(j: &Json) -> (r: bool)
    ensures
        r == stripped_ok(*j),
{
    let kind_ok = match j.get_str("type") {
        Some(t) => StrippedState::kind_of(t.as_str()).is_some(),
        None => false,
    };
    kind_ok && j.get_str("state_key").is_some() && j.check_object("content")
}

/// Whether the member event `doc` holds, as its `invite_room_state`, nothing, null, or a
/// list of stripped state events.
pub fn check_invite_room_state(doc: &Json) -> (r: bool)
    ensures
        r == optional_invite_room_state(*doc),
{
    match doc.get("invite_room_state") {
        None => true,
        Some(Json::Null) => true,
        Some(Json::Array(a)) => {
            let mut i: usize = 0;
            while i < a.len()
                invariant
                    i <= a@.len(),
                    doc.field("invite_room_state"@) == Some(Json::Array(*a)),
                    forall|j: int| 0 <= j < i ==> stripped_ok(#[trigger] a@[j]),
                decreases a@.len() - i,
            {
                if !check_stripped(&a[i]) {
                    return false;
                }
                i = i + 1;
            }
            true
        },
        _ => false,
    }
}

/// The general form of a stripped state event: only its content, type and state key.
#[derive(Debug)]
pub struct StrippedStateContent {
    /// The content of the event.
    pub content: Json,
    /// The type of the event.
    pub event_type: EventType,
    /// A key that determines which piece of room state the event represents.
    pub state_key: String,
}

/// A stripped-down version of a state event that is included along with some other events.
#[derive(Debug)]
pub enum StrippedState {
    /// m.room.avatar
    RoomAvatar(StrippedStateContent),
    /// m.room.canonical_alias
    RoomCanonicalAlias(StrippedStateContent),
    /// m.room.join_rules
    RoomJoinRules(StrippedStateContent),
    /// m.room.name
    RoomName(StrippedStateContent),
}

impl StrippedState {
    /// The event held, whichever kind it is.
    pub open spec fn inner(self) -> StrippedStateContent {
        match self {
            StrippedState::RoomAvatar(c) => c,
            StrippedState::RoomCanonicalAlias(c) => c,
            StrippedState::RoomJoinRules(c) => c,
            StrippedState::RoomName(c) => c,
        }
    }

    /// The kind that the variant stands for.
    pub open spec fn kind(self) -> EventType {
        match self {
            StrippedState::RoomAvatar(_) => EventType::RoomAvatar,
            StrippedState::RoomCanonicalAlias(_) => EventType::RoomCanonicalAlias,
            StrippedState::RoomJoinRules(_) => EventType::RoomJoinRules,
            StrippedState::RoomName(_) => EventType::RoomName,
        }
    }

    /// Whether the held event's type is the variant's kind, and its content an object.
    pub open spec fn wf(self) -> bool {
        self.inner().event_type == self.kind() && self.inner().content is Object
    }

    /// Whether `self` is what the document `j` describes.
    pub open spec fn describes(self, j: Json) -> bool {
        &&& j.text("type"@) matches Some(t) && stripped_kind(t) == Some(self.kind())
        &&& j.text("state_key"@) == Some(self.inner().state_key@)
        &&& j.field("content"@) == Some(self.inner().content)
    }

    /// The stripped kind whose tag is `t`, if any.
    pub fn kind_of(t: &str) -> (r: Option<EventType>)
        ensures
            r == stripped_kind(t@),
    {
        if same_text(t, "m.room.avatar") {
            Some(EventType::RoomAvatar)
        } else if same_text(t, "m.room.canonical_alias") {
            Some(EventType::RoomCanonicalAlias)
        } else if same_text(t, "m.room.join_rules") {
            Some(EventType::RoomJoinRules)
        } else if same_text(t, "m.room.name") {
            Some(EventType::RoomName)
        } else {
            None
        }
    }

    /// Reads a stripped state event from a document.
    pub fn from_json(j: Json) -> (r: Option<StrippedState>)
        ensures
            r is Some == stripped_ok(j),
            r matches Some(s) ==> s.describes(j) && s.wf(),
    {
        if !check_stripped(&j) {
            return None;
        }
        let kind = match j.get_str("type") {
            Some(t) => match Self::kind_of(t.as_str()) {
                Some(k) => k,
                None => return None,
            },
            None => return None,
        };
        let state_key = match j.get_str("state_key") {
            Some(k) => k.clone(),
            None => return None,
        };
        let content = match j.take("content") {
            Some(c) => c,
            None => return None,
        };
        match kind {
            EventType::RoomAvatar => Some(
                StrippedState::RoomAvatar(
                    StrippedStateContent { content, event_type: EventType::RoomAvatar, state_key },
                ),
            ),
            EventType::RoomCanonicalAlias => Some(
                StrippedState::RoomCanonicalAlias(
                    StrippedStateContent {
                        content,
                        event_type: EventType::RoomCanonicalAlias,
                        state_key,
                    },
                ),
            ),
            EventType::RoomJoinRules => Some(
                StrippedState::RoomJoinRules(
                    StrippedStateContent { content, event_type: EventType::RoomJoinRules, state_key },
                ),
            ),
            _ => Some(
                StrippedState::RoomName(
                    StrippedStateContent { content, event_type: EventType::RoomName, state_key },
                ),
            ),
        }
    }

    /// The document form of this stripped event.
    pub fn into_json(self) -> (r: Json)
        ensures
            self.describes(r),
            stripped_ok(r) == (self.inner().content is Object),
    {
        let kind = match &self {
            StrippedState::RoomAvatar(_) => EventType::RoomAvatar,
            StrippedState::RoomCanonicalAlias(_) => EventType::RoomCanonicalAlias,
            StrippedState::RoomJoinRules(_) => EventType::RoomJoinRules,
            StrippedState::RoomName(_) => EventType::RoomName,
        };
        let inner = match self {
            StrippedState::RoomAvatar(c) => c,
            StrippedState::RoomCanonicalAlias(c) => c,
            StrippedState::RoomJoinRules(c) => c,
            StrippedState::RoomName(c) => c,
        };
        proof {
            reveal_strlit("content");
            reveal_strlit("type");
            reveal_strlit("state_key");
            reveal_strlit("m.room.avatar");
            reveal_strlit("m.room.canonical_alias");
            reveal_strlit("m.room.join_rules");
            reveal_strlit("m.room.name");
            lemma_texts_differ("content"@, "type"@);
            lemma_texts_differ("content"@, "state_key"@);
            lemma_texts_differ("type"@, "state_key"@);
            lemma_texts_differ("m.room.avatar"@, "m.room.canonical_alias"@);
            lemma_texts_differ("m.room.avatar"@, "m.room.join_rules"@);
            lemma_texts_differ("m.room.canonical_alias"@, "m.room.join_rules"@);
            lemma_texts_differ("m.room.name"@, "m.room.avatar"@);
            lemma_texts_differ("m.room.name"@, "m.room.canonical_alias"@);
            lemma_texts_differ("m.room.name"@, "m.room.join_rules"@);
        }
        let mut entries: Vec<(String, Json)> = Vec::new();
        push_entry(&mut entries, "content", inner.content);
        push_entry(&mut entries, "type", Json::Str(kind.to_tag()));
        push_entry(&mut entries, "state_key", Json::Str(inner.state_key));
        Json::Object(entries)
    }
}

} // verus!
