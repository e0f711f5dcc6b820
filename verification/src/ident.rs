//! Identifiers drawn at random: for connections, stored files and sessions.

use vstd::prelude::*;

verus! {

/// The hyphenated lower-case text of a 128-bit identifier.
pub uninterp spec fn hyphenated(bits: u128) -> Seq<char>;

/// Calls `Uuid::new_v4` and hands the identifier out as its 128 bits. The
/// contract claims nothing of the value, which comes from the system's
/// source of randomness.
#[verifier::external_body]
pub(crate) fn fresh_uuid() -> (bits: u128) {
    uuid::Uuid::new_v4().as_u128()
}

/// Calls `to_string` on the `Uuid` of the given bits. The contract gives
/// its result the name [`hyphenated`], as it depends on the bits alone, and
/// claims its length: 36 characters, as the hyphenated form always has.
#[verifier::external_body]
pub(crate) fn uuid_text(bits: u128) -> (text: String)
    ensures
        text@ == hyphenated(bits),
        text@.len() == 36,
{
    uuid::Uuid::from_u128(bits).to_string()
}

} // verus!
