//! Identifiers of users and runs.
//!
//! An identifier is carried as the 128-bit number whose big-endian bytes are
//! the sixteen bytes of a UUID.

use vstd::prelude::*;

verus! {

/// Identifier of a user or a run.
pub type Id = u128;

#[verifier::external_type_specification]
#[verifier::external_body]
pub struct ExUuidError(uuid::Error);

/// The identifier that `uuid::Uuid::parse_str` reads out of a text, `None`
/// where it rejects the text.
pub uninterp spec fn parsed_uuid(text: Seq<char>) -> Option<u128>;

/// Bits that every version-4 UUID carries: version nibble `4`, variant `10`.
pub open spec fn is_random_uuid(id: u128) -> bool {
    id & 0x0000_0000_0000_f000_c000_0000_0000_0000u128
        == 0x0000_0000_0000_4000_8000_0000_0000_0000u128
}

/// `uuid::Uuid::parse_str`, with the UUID handed back by `as_u128`.
///
/// Trusted: the outcome is a function of the text alone, named
/// [`parsed_uuid`]; the parser accepts the simple, hyphenated, braced and URN
/// spellings and rejects every other text with an error.
#[verifier::external_body]
pub(crate) fn parse_uuid(text: &str) -> (r: Result<u128, uuid::Error>)
    ensures
        match r {
            Ok(id) => parsed_uuid(text@) == Some(id),
            Err(_) => parsed_uuid(text@) is None,
        },
{
    match uuid::Uuid::parse_str(text) {
        Ok(id) => Ok(id.as_u128()),
        Err(e) => Err(e),
    }
}

/// `uuid::Uuid::new_v4`, handed back by `as_u128`.
///
/// Trusted: the value is drawn from the operating system's random source, so
/// nothing is claimed but the version and variant bits that the generator
/// forces on every value.
#[verifier::external_body]
pub(crate) fn random_uuid() -> (id: u128)
    ensures
        is_random_uuid(id),
{
    uuid::Uuid::new_v4().as_u128()
}

/// Reads an identifier out of a text, or says that the text spells none.
pub fn parse_id(text: &str) -> (r: Option<Id>)
    ensures
        r == parsed_uuid(text@),
{
    match parse_uuid(text) {
        Ok(id) => Some(id),
        Err(_) => None,
    }
}

/// Draws a fresh random identifier.
pub fn fresh_id() -> (id: Id)
    ensures
        is_random_uuid(id),
{
    random_uuid()
}

} // verus!
