//! Input validation for the submit endpoint: the raw request body is accepted
//! only when it is the decimal text of a delta in `[MIN_DELTA, MAX_DELTA]`.
//! A rejected body is not an error: it means "do not mutate the counter".

use crate::delta_in_range;
use crate::delta_in_range_spec;
use crate::num::dec_digits;
use crate::num::lemma_dec_roundtrip;
use crate::num::parse_u32;
use crate::num::parse_u32_spec;
use vstd::prelude::*;

verus! {

/// What validation of a raw body yields: the parsed delta when the body is
/// well-formed decimal text for a value in range, and nothing otherwise.
///
/// The parse works on the raw bytes. A body that decodes as UTF-8 text and
/// parses as a decimal number is made of ASCII sign and digit bytes alone, so
/// the byte-level parse accepts exactly the bodies whose decoded text parses.
pub open spec fn validate_spec(body: Seq<u8>) -> Option<u32> {
    match parse_u32_spec(body) {
        Some(d) => if delta_in_range_spec(d) {
            Some(d)
        } else {
            None
        },
        None => None,
    }
}

/// Parses and bounds-checks the increment amount from a raw request body.
pub fn validate(body: &[u8]) -> (r: Option<u32>)
    ensures
        r == validate_spec(body@),
{
    match parse_u32(body) {
        Some(d) => if delta_in_range(d) {
            Some(d)
        } else {
            None
        },
        None => None,
    }
}

/// A body that is exactly the decimal text of a delta in range validates to
/// that delta: submitting such a body asks the counter to move by exactly it.
pub proof fn lemma_validate_decimal_body(d: u32)
    requires
        delta_in_range_spec(d),
    ensures
        validate_spec(dec_digits(d as int)) == Some(d),
{
    lemma_dec_roundtrip(d as int);
}

/// A body whose decimal value lies outside the accepted range is rejected,
/// which callers turn into "leave the counter unchanged".
pub proof fn lemma_validate_rejects_out_of_range(d: u32)
    requires
        !delta_in_range_spec(d),
    ensures
        validate_spec(dec_digits(d as int)) is None,
{
    lemma_dec_roundtrip(d as int);
}

} // verus!
