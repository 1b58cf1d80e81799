//! Identifiers for boards, columns and tasks.
//!
//! An identifier is carried as the 128-bit value of a UUID. Generation and
//! the textual form used by the persistence layer come from the `uuid`
//! crate through the trusted items below.

use vstd::prelude::*;

verus! {

/// The hyphenated textual form of the UUID whose 128-bit value is `id`, as
/// `uuid::Uuid`'s `Display` implementation writes it. It depends on `id`
/// alone.
pub uninterp spec fn uuid_str_of(id: u128) -> Seq<char>;

/// Relies on `uuid::Uuid::new_v4`: a freshly generated random UUID.
/// Nothing is promised of the value; callers that need an unused
/// identifier must check for themselves.
#[verifier::external_body]
pub(crate) fn fresh_id() -> u128 {
    uuid::Uuid::new_v4().as_u128()
}

/// Relies on `uuid::Uuid::from_u128` and the hyphenated `Display` form:
/// the textual form is a function of the 128-bit value alone.
#[verifier::external_body]
pub(crate) fn id_to_string(id: u128) -> (r: String)
    ensures
        r@ == uuid_str_of(id),
{
    uuid::Uuid::from_u128(id).to_string()
}

/// Relies on `uuid::Uuid::parse_str` and `as_u128`: `parse_str` accepts
/// the hyphenated form that `Display` produces and recovers the same
/// 128-bit value (`from_u128` and `as_u128` both go through the UUID's
/// big-endian bytes).
#[verifier::external_body]
pub(crate) fn parse_id(s: &String) -> (r: Option<u128>)
    ensures
        forall|id: u128| s@ == uuid_str_of(id) ==> r == Some(id),
{
    match uuid::Uuid::parse_str(s.as_str()) {
        Ok(u) => Some(u.as_u128()),
        Err(_) => None,
    }
}

} // verus!
