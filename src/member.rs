//! The content of the `m.room.member` event.
use vstd::prelude::*;

use crate::ids::{check_user_id, is_user_id};
use crate::json::{lemma_texts_differ, lemma_texts_differ_at, push_entry, same_text, Json};

verus! {

/// The membership state of a user.
#[derive(Clone, Copy, Debug, PartialEq, Eq, Structural)]
pub enum MembershipState {
    /// The user is banned.
    Ban,
    /// The user has been invited.
    Invite,
    /// The user has joined.
    Join,
    /// The user has requested to join.
    Knock,
    /// The user has left.
    Leave,
}

/// The membership state whose name is `s`, if any.
pub open spec fn membership_of(s: Seq<char>) -> Option<MembershipState> {
    if s == "ban"@ {
        Some(MembershipState::Ban)
    } else if s == "invite"@ {
        Some(MembershipState::Invite)
    } else if s == "join"@ {
        Some(MembershipState::Join)
    } else if s == "knock"@ {
        Some(MembershipState::Knock)
    } else if s == "leave"@ {
        Some(MembershipState::Leave)
    } else {
        None
    }
}

impl MembershipState {
    /// The name of this state in a document.
    pub open spec fn name(self) -> Seq<char> {
        match self {
            MembershipState::Ban => "ban"@,
            MembershipState::Invite => "invite"@,
            MembershipState::Join => "join"@,
            MembershipState::Knock => "knock"@,
            MembershipState::Leave => "leave"@,
        }
    }

    pub fn as_str(&self) -> (r: &'static str)
        ensures
            r@ == self.name(),
    {
        match self {
            MembershipState::Ban => "ban",
            MembershipState::Invite => "invite",
            MembershipState::Join => "join",
            MembershipState::Knock => "knock",
            MembershipState::Leave => "leave",
        }
    }

    pub fn from_name(s: &str) -> (r: Option<MembershipState>)
        ensures
            r == membership_of(s@),
    {
        if same_text(s, "ban") {
            Some(MembershipState::Ban)
        } else if same_text(s, "invite") {
            Some(MembershipState::Invite)
        } else if same_text(s, "join") {
            Some(MembershipState::Join)
        } else if same_text(s, "knock") {
            Some(MembershipState::Knock)
        } else if same_text(s, "leave") {
            Some(MembershipState::Leave)
        } else {
            None
        }
    }
}

/// Each membership state is found again from its name.
pub proof fn lemma_membership_name(m: MembershipState)
    ensures
        membership_of(m.name()) == Some(m),
{
    reveal_strlit("ban");
    reveal_strlit("invite");
    reveal_strlit("join");
    reveal_strlit("knock");
    reveal_strlit("leave");
    lemma_texts_differ("invite"@, "ban"@);
    lemma_texts_differ("join"@, "ban"@);
    lemma_texts_differ("join"@, "invite"@);
    lemma_texts_differ("knock"@, "ban"@);
    lemma_texts_differ("knock"@, "invite"@);
    lemma_texts_differ("knock"@, "join"@);
    lemma_texts_differ("leave"@, "ban"@);
    lemma_texts_differ("leave"@, "invite"@);
    lemma_texts_differ("leave"@, "join"@);
    lemma_texts_differ_at("leave"@, "knock"@, 0);
}

/// A block of content which has been signed, which servers can use to verify a third party
/// invitation.
#[derive(Debug)]
pub struct SignedContent {
    /// The invited user ID. Must be equal to the user_id property of the event.
    pub mxid: String,
    /// A single signature from the verifying server, kept as the object it was given as.
    pub signatures: Json,
    /// The token property of the containing third_party_invite object.
    pub token: String,
}

/// Whether `j` is a well-formed signed block.
pub open spec fn signed_ok(j: Json) -> bool {
    &&& j.text("mxid"@) matches Some(m) && is_user_id(m)
    &&& j.has_object("signatures"@)
    &&& j.text("token"@) is Some
}

impl SignedContent {
    /// Whether the fields hold what a signed block needs.
    pub open spec fn wf(self) -> bool {
        is_user_id(self.mxid@) && self.signatures is Object
    }

    /// Whether `self` is what the document `j` describes.
    pub open spec fn describes(self, j: Json) -> bool {
        &&& j.text("mxid"@) == Some(self.mxid@)
        &&& j.field("signatures"@) == Some(self.signatures)
        &&& j.text("token"@) == Some(self.token@)
    }

    /// Reads a signed block from a document.
    pub fn from_json(j: Json) -> (r: Option<SignedContent>)
        ensures
            r is Some == signed_ok(j),
            r matches Some(c) ==> c.describes(j) && c.wf(),
    {
        let mxid = match j.get_str("mxid") {
            Some(m) => m.clone(),
            None => return None,
        };
        if !check_user_id(mxid.as_str()) {
            return None;
        }
        let token = match j.get_str("token") {
            Some(t) => t.clone(),
            None => return None,
        };
        if !j.check_object("signatures") {
            return None;
        }
        match j.take("signatures") {
            Some(signatures) => Some(SignedContent { mxid, signatures, token }),
            None => None,
        }
    }

    /// The document form of this signed block.
    pub fn into_json(self) -> (r: Json)
        ensures
            self.describes(r),
            signed_ok(r) == self.wf(),
    {
        let mut entries: Vec<(String, Json)> = Vec::new();
        push_entry(&mut entries, "mxid", Json::Str(self.mxid));
        push_entry(&mut entries, "signatures", self.signatures);
        push_entry(&mut entries, "token", Json::Str(self.token));
        proof {
            reveal_strlit("mxid");
            reveal_strlit("signatures");
            reveal_strlit("token");
            lemma_texts_differ("mxid"@, "signatures"@);
            lemma_texts_differ_at("mxid"@, "token"@, 0);
            lemma_texts_differ("token"@, "signatures"@);
        }
        Json::Object(entries)
    }
}

/// Information about a third party invitation.
#[derive(Debug)]
pub struct ThirdPartyInvite {
    /// A name which can be displayed to represent the user instead of their third party
    /// identifier.
    pub display_name: String,
    /// A block of content which has been signed, which servers can use to verify the event.
    pub signed: SignedContent,
}

/// Whether `j` is a well-formed third party invitation.
pub open spec fn third_party_invite_ok(j: Json) -> bool {
    &&& j.text("display_name"@) is Some
    &&& j.field("signed"@) matches Some(s) && signed_ok(s)
}

impl ThirdPartyInvite {
    pub open spec fn wf(self) -> bool {
        self.signed.wf()
    }

    /// Whether `self` is what the document `j` describes.
    pub open spec fn describes(self, j: Json) -> bool {
        &&& j.text("display_name"@) == Some(self.display_name@)
        &&& j.field("signed"@) matches Some(s) && self.signed.describes(s)
    }

    /// Reads a third party invitation from a document.
    pub fn from_json(j: Json) -> (r: Option<ThirdPartyInvite>)
        ensures
            r is Some == third_party_invite_ok(j),
            r matches Some(t) ==> t.describes(j) && t.wf(),
    {
        let display_name = match j.get_str("display_name") {
            Some(d) => d.clone(),
            None => return None,
        };
        match j.take("signed") {
            Some(s) => match SignedContent::from_json(s) {
                Some(signed) => Some(ThirdPartyInvite { display_name, signed }),
                None => None,
            },
            None => None,
        }
    }

    /// The document form of this third party invitation.
    pub fn into_json(self) -> (r: Json)
        ensures
            self.describes(r),
            third_party_invite_ok(r) == self.wf(),
    {
        let mut entries: Vec<(String, Json)> = Vec::new();
        push_entry(&mut entries, "display_name", Json::Str(self.display_name));
        let signed = self.signed.into_json();
        push_entry(&mut entries, "signed", signed);
        proof {
            reveal_strlit("display_name");
            reveal_strlit("signed");
            lemma_texts_differ("display_name"@, "signed"@);
        }
        Json::Object(entries)
    }
}

/// Whether `j` holds, under `key`, nothing, null, or a well-formed third party invitation.
pub open spec fn optional_third_party_invite(j: Json, key: Seq<char>) -> bool {
    match j.field(key) {
        None => true,
        Some(Json::Null) => true,
        Some(t) => third_party_invite_ok(t),
    }
}

/// The first field of a member event's content that is missing or malformed, if any.
pub open spec fn member_content_fault(c: Json) -> Option<Seq<char>> {
    if !(c.text("membership"@) matches Some(m) && membership_of(m) is Some) {
        Some("membership"@)
    } else if !c.optional_text("avatar_url"@) {
        Some("avatar_url"@)
    } else if !c.optional_text("displayname"@) {
        Some("displayname"@)
    } else if !c.optional_bool("is_direct"@) {
        Some("is_direct"@)
    } else if !optional_third_party_invite(c, "third_party_invite"@) {
        Some("third_party_invite"@)
    } else {
        None
    }
}

/// The first field of a member event's content that is missing or malformed, if any.
pub fn check_member_content(c: &Json) -> (r: Option<&'static str>)
    ensures
        r is Some == member_content_fault(*c) is Some,
        r matches Some(f) ==> member_content_fault(*c) == Some(f@),
{
    proof {
        reveal_strlit("membership");
        reveal_strlit("avatar_url");
        reveal_strlit("displayname");
        reveal_strlit("is_direct");
        reveal_strlit("third_party_invite");
    }
    let ok = match c.get_str("membership") {
        Some(m) => MembershipState::from_name(m.as_str()).is_some(),
        None => false,
    };
    if !ok {
        return Some("membership");
    }
    if !c.check_optional_text("avatar_url") {
        return Some("avatar_url");
    }
    if !c.check_optional_text("displayname") {
        return Some("displayname");
    }
    if !c.check_optional_bool("is_direct") {
        return Some("is_direct");
    }
    if !check_third_party_invite(c.get("third_party_invite")) {
        return Some("third_party_invite");
    }
    None
}

/// Whether an optional value is absent, null, or a well-formed third party invitation.
fn check_third_party_invite(j: Option<&Json>) -> (r: bool)
    ensures
        r == match j {
            None => true,
            Some(Json::Null) => true,
            Some(t) => third_party_invite_ok(*t),
        },
{
    match j {
        None => true,
        Some(Json::Null) => true,
        Some(t) => {
            if t.get_str("display_name").is_none() {
                return false;
            }
            match t.get("signed") {
                Some(s) => {
                    let mxid_ok = match s.get_str("mxid") {
                        Some(m) => check_user_id(m.as_str()),
                        None => false,
                    };
                    mxid_ok && s.check_object("signatures") && s.get_str("token").is_some()
                },
                None => false,
            }
        },
    }
}

/// The payload of a member event.
#[derive(Debug)]
pub struct MemberEventContent {
    /// The avatar URL for this user.
    pub avatar_url: Option<String>,
    /// The display name for this user.
    pub displayname: Option<String>,
    /// Flag indicating if the room containing this event was created with the intention of
    /// being a direct chat.
    pub is_direct: Option<bool>,
    /// The membership state of this user.
    pub membership: MembershipState,
    /// If this member event is the successor to a third party invitation, this field will
    /// contain information about that invitation.
    pub third_party_invite: Option<ThirdPartyInvite>,
}

/// Whether an optional text field of a document holds `v`: null and absence both stand
/// for no value.
pub open spec fn describes_text(j: Json, key: Seq<char>, v: Option<String>) -> bool {
    match v {
        Some(s) => j.text(key) == Some(s@),
        None => j.field(key) is None || j.field(key) == Some(Json::Null),
    }
}

impl MemberEventContent {
    pub open spec fn wf(self) -> bool {
        self.third_party_invite matches Some(t) ==> t.wf()
    }

    /// Whether `self` is what the content document `c` describes.
    pub open spec fn describes(self, c: Json) -> bool {
        &&& c.text("membership"@) matches Some(m) && membership_of(m) == Some(self.membership)
        &&& describes_text(c, "avatar_url"@, self.avatar_url)
        &&& describes_text(c, "displayname"@, self.displayname)
        &&& match self.is_direct {
            Some(b) => c.field("is_direct"@) == Some(Json::Bool(b)),
            None => c.field("is_direct"@) is None || c.field("is_direct"@) == Some(Json::Null),
        }
        &&& match self.third_party_invite {
            Some(t) => c.field("third_party_invite"@) matches Some(j) && t.describes(j),
            None => c.field("third_party_invite"@) is None || c.field("third_party_invite"@)
                == Some(Json::Null),
        }
    }

    /// Reads a member event's content from a document.
    pub fn from_json(c: Json) -> (r: Option<MemberEventContent>)
        ensures
            r is Some == (member_content_fault(c) is None),
            r matches Some(m) ==> m.describes(c) && m.wf(),
    {
        if check_member_content(&c).is_some() {
            return None;
        }
        let membership = match c.get_str("membership") {
            Some(m) => match MembershipState::from_name(m.as_str()) {
                Some(s) => s,
                None => return None,
            },
            None => return None,
        };
        let avatar_url = match c.get_str("avatar_url") {
            Some(a) => Some(a.clone()),
            None => None,
        };
        let displayname = match c.get_str("displayname") {
            Some(d) => Some(d.clone()),
            None => None,
        };
        let is_direct = match c.get("is_direct") {
            Some(Json::Bool(b)) => Some(*b),
            _ => None,
        };
        let third_party_invite = match c.take("third_party_invite") {
            Some(Json::Null) => None,
            Some(t) => match ThirdPartyInvite::from_json(t) {
                Some(t) => Some(t),
                None => return None,
            },
            None => None,
        };
        Some(MemberEventContent { avatar_url, displayname, is_direct, membership, third_party_invite })
    }

    /// The document form of this content; absent values are left out.
    pub fn into_json(self) -> (r: Json)
        ensures
            self.describes(r),
            (member_content_fault(r) is None) == self.wf(),
    {
        proof {
            reveal_strlit("membership");
            reveal_strlit("avatar_url");
            reveal_strlit("displayname");
            reveal_strlit("is_direct");
            reveal_strlit("third_party_invite");
            lemma_membership_name(self.membership);
            lemma_texts_differ("avatar_url"@, "displayname"@);
            lemma_texts_differ_at("avatar_url"@, "membership"@, 0);
            lemma_texts_differ("avatar_url"@, "is_direct"@);
            lemma_texts_differ("avatar_url"@, "third_party_invite"@);
            lemma_texts_differ("displayname"@, "membership"@);
            lemma_texts_differ_at("displayname"@, "is_direct"@, 0);
            lemma_texts_differ("displayname"@, "third_party_invite"@);
            lemma_texts_differ("membership"@, "is_direct"@);
            lemma_texts_differ("membership"@, "third_party_invite"@);
            lemma_texts_differ("is_direct"@, "third_party_invite"@);
        }
        let mut entries: Vec<(String, Json)> = Vec::new();
        push_entry(&mut entries, "membership", Json::Str(self.membership.as_str().to_owned()));
        if let Some(a) = self.avatar_url {
            push_entry(&mut entries, "avatar_url", Json::Str(a));
        }
        if let Some(d) = self.displayname {
            push_entry(&mut entries, "displayname", Json::Str(d));
        }
        if let Some(b) = self.is_direct {
            push_entry(&mut entries, "is_direct", Json::Bool(b));
        }
        if let Some(t) = self.third_party_invite {
            let tj = t.into_json();
            push_entry(&mut entries, "third_party_invite", tj);
        }
        Json::Object(entries)
    }
}

} // verus!
