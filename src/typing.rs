//! The content of the `m.typing` event.
use vstd::prelude::*;

use crate::ids::{check_room_id, check_user_id, is_room_id, is_user_id};
use crate::json::{push_entry, Json};

verus! {

/// Whether `a` is a list of valid user IDs.
pub open spec fn user_id_list(a: Seq<Json>) -> bool {
    forall|i: int| 0 <= i < a.len() ==> (#[trigger] a[i] matches Json::Str(s) && is_user_id(s@))
}

/// Whether a typing event's content holds a well-formed `user_ids` list.
pub open spec fn typing_content_ok(c: Json) -> bool {
    c.field("user_ids"@) matches Some(Json::Array(a)) && user_id_list(a@)
}

/// Whether the typing event `doc` holds, as its `room_id`, nothing, null, or a valid room ID.
pub open spec fn optional_room_id(doc: Json) -> bool {
    match doc.field("room_id"@) {
        None => true,
        Some(Json::Null) => true,
        Some(Json::Str(s)) => is_room_id(s@),
        _ => false,
    }
}

/// Whether a list holds only valid user IDs.
pub fn check_user_id_list(a: &Vec<Json>) -> (r: bool)
    ensures
        r == user_id_list(a@),
{
    let mut i: usize = 0;
    while i < a.len()
        invariant
            i <= a@.len(),
            forall|j: int| 0 <= j < i ==> (#[trigger] a@[j] matches Json::Str(s) && is_user_id(s@)),
        decreases a@.len() - i,
    {
        let ok = match &a[i] {
            Json::Str(s) => check_user_id(s.as_str()),
            _ => false,
        };
        if !ok {
            return false;
        }
        i = i + 1;
    }
    true
}

/// Whether a typing event's content holds a well-formed `user_ids` list.
pub fn check_typing_content(c: &Json) -> (r: bool)
    ensures
        r == typing_content_ok(*c),
{
    match c.get("user_ids") {
        Some(Json::Array(a)) => check_user_id_list(a),
        _ => false,
    }
}

/// Whether the typing event `doc` holds, as its `room_id`, nothing, null, or a valid room ID.
pub fn check_optional_room_id(doc: &Json) -> (r: bool)
    ensures
        r == optional_room_id(*doc),
{
    match doc.get("room_id") {
        None => true,
        Some(Json::Null) => true,
        Some(Json::Str(s)) => check_room_id(s.as_str()),
        _ => false,
    }
}

/// The payload of a typing event.
#[derive(Clone, Debug)]
pub struct TypingEventContent {
    /// The list of user IDs typing in this room, if any.
    pub user_ids: Vec<String>,
}

impl TypingEventContent {
    pub open spec fn wf(self) -> bool {
        forall|i: int| 0 <= i < self.user_ids@.len() ==> is_user_id(#[trigger] self.user_ids@[i]@)
    }

    /// Whether `self` is what the content document `c` describes.
    pub open spec fn describes(self, c: Json) -> bool {
        &&& c.field("user_ids"@) matches Some(Json::Array(a))
        &&& a@.len() == self.user_ids@.len()
        &&& forall|i: int|
            0 <= i < a@.len() ==> (#[trigger] a@[i] matches Json::Str(s) && s@
                == self.user_ids@[i]@)
    }

    /// Reads a typing event's content from a document.
    pub fn from_json(c: &Json) -> (r: Option<TypingEventContent>)
        ensures
            r is Some == typing_content_ok(*c),
            r matches Some(t) ==> t.describes(*c) && t.wf(),
    {
        let a = match c.get("user_ids") {
            Some(Json::Array(a)) => a,
            _ => return None,
        };
        let mut user_ids: Vec<String> = Vec::new();
        let mut i: usize = 0;
        while i < a.len()
            invariant
                i <= a@.len(),
                user_ids@.len() == i,
                c.field("user_ids"@) == Some(Json::Array(*a)),
                forall|j: int|
                    0 <= j < i ==> (#[trigger] a@[j] matches Json::Str(s) && s@ == user_ids@[j]@
                        && is_user_id(s@)),
            decreases a@.len() - i,
        {
            match &a[i] {
                Json::Str(s) => {
                    if !check_user_id(s.as_str()) {
                        return None;
                    }
                    user_ids.push(s.clone());
                },
                _ => return None,
            }
            i = i + 1;
        }
        let r = TypingEventContent { user_ids };
        assert forall|j: int| 0 <= j < r.user_ids@.len() implies is_user_id(
            #[trigger] r.user_ids@[j]@,
        ) by {
            assert(a@[j] matches Json::Str(s) && s@ == r.user_ids@[j]@ && is_user_id(s@));
        }
        Some(r)
    }

    /// The document form of this content.
    pub fn to_json(&self) -> (r: Json)
        ensures
            self.describes(r),
            typing_content_ok(r) == self.wf(),
    {
        let mut items: Vec<Json> = Vec::new();
        let mut i: usize = 0;
        while i < self.user_ids.len()
            invariant
                i <= self.user_ids@.len(),
                items@.len() == i,
                forall|j: int|
                    0 <= j < i ==> (#[trigger] items@[j] matches Json::Str(s) && s@
                        == self.user_ids@[j]@),
            decreases self.user_ids@.len() - i,
        {
            items.push(Json::Str(self.user_ids[i].clone()));
            i = i + 1;
        }
        let ghost list = items@;
        let mut entries: Vec<(String, Json)> = Vec::new();
        push_entry(&mut entries, "user_ids", Json::Array(items));
        let r = Json::Object(entries);
        assert(typing_content_ok(r) == self.wf()) by {
            if self.wf() {
                assert forall|j: int| 0 <= j < list.len() implies (#[trigger] list[j] matches Json::Str(
                    s,
                ) && is_user_id(s@)) by {
                    assert(is_user_id(self.user_ids@[j]@));
                }
            } else {
                let j = choose|j: int|
                    0 <= j < self.user_ids@.len() && !is_user_id(#[trigger] self.user_ids@[j]@);
                assert(list[j] matches Json::Str(s) && s@ == self.user_ids@[j]@);
            }
        }
        r
    }
}

} // verus!
