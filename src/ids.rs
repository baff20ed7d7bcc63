//! Identifier validation, as the identifier crate defines it.
use vstd::prelude::*;

verus! {

/// Whether the text is a valid user ID.
pub uninterp spec fn is_user_id(s: Seq<char>) -> bool;

/// Whether the text is a valid room ID.
pub uninterp spec fn is_room_id(s: Seq<char>) -> bool;

/// Whether the text is a valid event ID.
pub uninterp spec fn is_event_id(s: Seq<char>) -> bool;

/// Relies on `ruma_identifiers::UserId::try_from(&str)`: it accepts or refuses the text
/// by the text alone, and refuses any text that does not start with `@`.
#[verifier::external_body]
pub fn check_user_id(s: &str) -> (r: bool)
    ensures
        r == is_user_id(s@),
        r ==> s@.len() > 0 && s@[0] == '@',
{
    <ruma_identifiers::UserId as std::convert::TryFrom<&str>>::try_from(s).is_ok()
}

/// Relies on `ruma_identifiers::RoomId::try_from(&str)`: it accepts or refuses the text
/// by the text alone, and refuses any text that does not start with `!`.
#[verifier::external_body]
pub fn check_room_id(s: &str) -> (r: bool)
    ensures
        r == is_room_id(s@),
        r ==> s@.len() > 0 && s@[0] == '!',
{
    <ruma_identifiers::RoomId as std::convert::TryFrom<&str>>::try_from(s).is_ok()
}

/// Relies on `ruma_identifiers::EventId::try_from(&str)`: it accepts or refuses the text
/// by the text alone, and refuses any text that does not start with `$`.
#[verifier::external_body]
pub fn check_event_id(s: &str) -> (r: bool)
    ensures
        r == is_event_id(s@),
        r ==> s@.len() > 0 && s@[0] == '$',
{
    <ruma_identifiers::EventId as std::convert::TryFrom<&str>>::try_from(s).is_ok()
}

} // verus!
