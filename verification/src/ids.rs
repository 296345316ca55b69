//! User identifiers: 128-bit values with a canonical hyphenated text form.
//!
//! A token carries its subject as text; the account store keys users by the
//! 128-bit value. The conversions between the two, and the drawing of fresh
//! identifiers, are the work of an outside library and stand behind trusted
//! wrappers here.

use vstd::prelude::*;

verus! {

/// The canonical text of a user identifier, as the outside library renders
/// it: the hyphenated form, a function of the identifier's 128 bits alone.
pub uninterp spec fn uuid_text(id: u128) -> Seq<char>;

/// The identifier a given text parses to, if it is well-formed; a function
/// of the text alone.
pub uninterp spec fn parsed_uuid(s: Seq<char>) -> Option<u128>;

/// Relies on `uuid::Uuid::to_string` (through `from_u128`): it renders the
/// identifier's canonical hyphenated text, and `uuid::Uuid::parse_str`
/// accepts that text and recovers the same identifier.
#[verifier::external_body]
pub(crate) fn uuid_to_string(id: u128) -> (r: String)
    ensures
        r@ == uuid_text(id),
        parsed_uuid(r@) == Some(id),
{
    uuid::Uuid::from_u128(id).to_string()
}

/// Relies on `uuid::Uuid::parse_str`: a deterministic parse of a textual
/// identifier, succeeding exactly on well-formed texts.
#[verifier::external_body]
pub(crate) fn parse_user_id(s: &str) -> (r: Result<u128, ()>)
    ensures
        r is Ok <==> parsed_uuid(s@) is Some,
        r is Ok ==> parsed_uuid(s@) == Some(r->Ok_0),
{
    match uuid::Uuid::parse_str(s) {
        Ok(u) => Ok(u.as_u128()),
        Err(_) => Err(()),
    }
}

/// Relies on `uuid::Uuid::new_v4`: a freshly drawn random identifier;
/// nothing is assumed of its value.
#[verifier::external_body]
pub(crate) fn fresh_user_id() -> u128 {
    uuid::Uuid::new_v4().as_u128()
}

} // verus!
