//! Decoding bytes as UTF-8 text.

use vstd::prelude::*;
use vstd::slice::slice_to_vec;
use vstd::utf8::{decode_utf8, encode_utf8, valid_utf8};
use crate::error::PdkError;

verus! {

/// The message with which bytes that are not UTF-8 are rejected.
pub uninterp spec fn utf8_error_text(bytes: Seq<u8>) -> Seq<char>;

/// `String::from_utf8`: the string whose bytes are `bytes` where they are
/// valid UTF-8; where they are not, the text of the error, which is the
/// same for the same bytes and which `utf8_error_text` names.
#[verifier::external_body]
fn from_utf8(bytes: Vec<u8>) -> (r: Result<String, String>)
    ensures
        match r {
            Ok(s) => valid_utf8(bytes@) && encode_utf8(s@) == bytes@,
            Err(m) => !valid_utf8(bytes@) && m@ == utf8_error_text(bytes@),
        },
{
    match String::from_utf8(bytes) {
        Ok(s) => Ok(s),
        Err(e) => Err(format!("{}", e)),
    }
}

/// Whether `r` is the rejection of `bytes` as not UTF-8: the error holds
/// exactly those bytes and the message for them.
pub open spec fn rejects<T>(r: Result<T, PdkError>, bytes: Seq<u8>) -> bool {
    r matches Err(PdkError::InvalidUtf8 { bytes: held, reason }) && held@ == bytes && reason@
        == utf8_error_text(bytes)
}

/// Decodes `bytes` as UTF-8. Bytes that are not UTF-8 come back in the
/// error.
pub fn decode(bytes: Vec<u8>) -> (r: Result<String, PdkError>)
    ensures
        valid_utf8(bytes@) ==> (r matches Ok(s) && s@ == decode_utf8(bytes@)),
        !valid_utf8(bytes@) ==> rejects(r, bytes@),
{
    let kept = slice_to_vec(bytes.as_slice());
    match from_utf8(bytes) {
        Ok(s) => {
            proof {
                vstd::utf8::encode_utf8_decode_utf8(s@);
            }
            Ok(s)
        },
        Err(reason) => Err(PdkError::InvalidUtf8 { bytes: kept, reason }),
    }
}

} // verus!
