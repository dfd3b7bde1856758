//! Identifiers. Every entity (owner, property, transaction, user, session
//! token) is identified by a 128-bit value, the numeric form of a UUID.

use vstd::prelude::*;

verus! {

/// What `uuid::Uuid::parse_str` yields for a given string: the 128-bit value
/// of the parsed identifier, or nothing where the string is not a valid
/// textual UUID. A function of the string alone.
pub uninterp spec fn uuid_of(s: Seq<char>) -> Option<u128>;

/// Relies on `uuid::Uuid::new_v4`: a freshly drawn random version-4 UUID,
/// taken as its 128-bit value. Nothing is promised of the value; callers
/// must check freshness themselves.
#[verifier::external_body]
pub(crate) fn new_id() -> u128 {
    uuid::Uuid::new_v4().as_u128()
}

/// Relies on `uuid::Uuid::parse_str`, whose outcome is a function of the
/// string alone, and on `uuid::Uuid::as_u128` for the numeric value.
#[verifier::external_body]
pub(crate) fn parse_id(s: &str) -> (r: Option<u128>)
    ensures
        r == uuid_of(s@),
{
    match uuid::Uuid::parse_str(s) {
        Ok(u) => Some(u.as_u128()),
        Err(_) => None,
    }
}

} // verus!
