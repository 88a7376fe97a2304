//! Validation of what a caller hands over at the native-call boundary.
use vstd::prelude::*;
use vstd::string::StringSliceAdditionalSpecFns;
use vstd::utf8::valid_utf8;

use crate::error::CalcError;

verus! {

/// Relies on std::str::from_utf8: it accepts exactly the byte sequences
/// that are valid UTF-8, and the text it returns has those bytes.
#[verifier::external_body]
fn utf8_text(b: &[u8]) -> (r: Option<&str>)
    ensures
        r is Some <==> valid_utf8(b@),
        r matches Some(s) ==> s.spec_bytes() == b@,
{
    std::str::from_utf8(b).ok()
}

/// The beatmap path held in `bytes` (without the terminating zero), or
/// `InvalidPath` when the bytes are not UTF-8.
pub fn decode_path(bytes: &[u8]) -> (r: Result<&str, CalcError>)
    ensures
        r is Ok <==> valid_utf8(bytes@),
        r matches Ok(s) ==> s.spec_bytes() == bytes@,
        !valid_utf8(bytes@) ==> r == Err::<&str, CalcError>(CalcError::InvalidPath),
{
    match utf8_text(bytes) {
        Some(s) => Ok(s),
        None => Err(CalcError::InvalidPath),
    }
}

} // verus!
