//! Types shared by the events of the `m.call` namespace.
use vstd::prelude::*;

use crate::json::{entry, lemma_lookup_push, lemma_texts_differ, same_text, Json};

verus! {

/// The type of VoIP session description.
#[derive(Clone, Copy, Debug, PartialEq, Eq, Structural)]
pub enum SessionDescriptionType {
    /// An answer.
    Answer,
    /// An offer.
    Offer,
}

/// The session description type whose name is `s`, if any.
pub open spec fn session_type_of(s: Seq<char>) -> Option<SessionDescriptionType> {
    if s == "answer"@ {
        Some(SessionDescriptionType::Answer)
    } else if s == "offer"@ {
        Some(SessionDescriptionType::Offer)
    } else {
        None
    }
}

/// Whether `j` is a well-formed session description: a known `type` and an `sdp` text.
pub open spec fn session_description_ok(j: Json) -> bool {
    &&& j.text("type"@) matches Some(t) && session_type_of(t) is Some
    &&& j.text("sdp"@) is Some
}

impl SessionDescriptionType {
    /// The name of this type in a document.
    pub open spec fn name(self) -> Seq<char> {
        match self {
            SessionDescriptionType::Answer => "answer"@,
            SessionDescriptionType::Offer => "offer"@,
        }
    }

    pub fn as_str(&self) -> (r: &'static str)
        ensures
            r@ == self.name(),
    {
        match self {
            SessionDescriptionType::Answer => "answer",
            SessionDescriptionType::Offer => "offer",
        }
    }

    pub fn from_name(s: &str) -> (r: Option<SessionDescriptionType>)
        ensures
            r == session_type_of(s@),
    {
        if same_text(s, "answer") {
            Some(SessionDescriptionType::Answer)
        } else if same_text(s, "offer") {
            Some(SessionDescriptionType::Offer)
        } else {
            None
        }
    }
}

/// Each session description type is found again from its name.
pub proof fn lemma_session_type_name(t: SessionDescriptionType)
    ensures
        session_type_of(t.name()) == Some(t),
{
    reveal_strlit("answer");
    reveal_strlit("offer");
    lemma_texts_differ("offer"@, "answer"@);
}

/// A VoIP session description.
#[derive(Clone, Debug)]
pub struct SessionDescription {
    /// The type of session description.
    pub session_type: SessionDescriptionType,
    /// The SDP text of the session description.
    pub sdp: String,
}

impl SessionDescription {
    /// Whether `self` is what the document `j` describes.
    pub open spec fn describes(self, j: Json) -> bool {
        &&& j.text("type"@) matches Some(t) && session_type_of(t) == Some(self.session_type)
        &&& j.text("sdp"@) == Some(self.sdp@)
    }

    /// Reads a session description from a document.
    pub fn from_json(j: &Json) -> (r: Option<SessionDescription>)
        ensures
            r is Some == session_description_ok(*j),
            r matches Some(d) ==> d.describes(*j),
    {
        let t = match j.get_str("type") {
            Some(t) => t,
            None => return None,
        };
        let session_type = match SessionDescriptionType::from_name(t.as_str()) {
            Some(k) => k,
            None => return None,
        };
        match j.get_str("sdp") {
            Some(sdp) => Some(SessionDescription { session_type, sdp: sdp.clone() }),
            None => None,
        }
    }

    /// The document form of this session description.
    pub fn to_json(&self) -> (r: Json)
        ensures
            self.describes(r),
            session_description_ok(r),
    {
        let mut entries: Vec<(String, Json)> = Vec::new();
        let t = entry("type", Json::Str(self.session_type.as_str().to_owned()));
        let s = entry("sdp", Json::Str(self.sdp.clone()));
        proof {
            reveal_strlit("type");
            reveal_strlit("sdp");
            lemma_texts_differ("type"@, "sdp"@);
            lemma_lookup_push(entries@, t, "type"@);
            lemma_lookup_push(entries@, t, "sdp"@);
            lemma_lookup_push(entries@.push(t), s, "type"@);
            lemma_lookup_push(entries@.push(t), s, "sdp"@);
            lemma_session_type_name(self.session_type);
        }
        entries.push(t);
        entries.push(s);
        Json::Object(entries)
    }
}

} // verus!
