//! The two places where byte strings become text: strict UTF-8 decoding
//! for header values, and lossy decoding for response bodies and
//! diagnostics.

use vstd::prelude::*;
use vstd::utf8::{decode_utf8, valid_utf8};

verus! {

/// Relies on `std::str::from_utf8`: it succeeds exactly on valid UTF-8 and
/// returns the decoded text unchanged.
#[verifier::external_body]
pub(crate) fn utf8_str(b: &[u8]) -> (r: Option<&str>)
    ensures
        (r is Some) == valid_utf8(b@),
        r matches Some(s) ==> s@ == decode_utf8(b@),
{
    std::str::from_utf8(b).ok()
}

/// Relies on `String::from_utf8_lossy`: valid UTF-8 bytes decode
/// unchanged (invalid sequences are replaced, on which nothing is claimed).
#[verifier::external_body]
pub(crate) fn lossy_string(b: &[u8]) -> (r: String)
    ensures
        valid_utf8(b@) ==> r@ == decode_utf8(b@),
{
    String::from_utf8_lossy(b).to_string()
}

} // verus!
