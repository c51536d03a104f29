//! Audio as it arrives from the recording side: standard base64 text.

use vstd::prelude::*;
use crate::error::TranscribeError;
use base64::Engine as _;

verus! {

#[verifier::external_type_specification]
#[verifier::external_body]
pub struct ExDecodeError(base64::DecodeError);

/// The bytes that standard base64 (with padding) makes of a text, if it is
/// valid base64.
pub uninterp spec fn base64_standard(s: Seq<char>) -> Option<Seq<u8>>;

/// Relies on `base64::engine::general_purpose::STANDARD.decode`: the bytes the
/// text encodes, or an error where it is not valid padded base64; the empty
/// text decodes to no bytes.
#[verifier::external_body]
fn decode_standard(text: &str) -> (r: Result<Vec<u8>, base64::DecodeError>)
    ensures
        base64_standard(text@) is None ==> r is Err,
        base64_standard(text@) is Some ==> r is Ok,
        r is Ok ==> base64_standard(text@) == Some(r->Ok_0@),
        text@.len() == 0 ==> r is Ok && r->Ok_0@.len() == 0,
{
    base64::engine::general_purpose::STANDARD.decode(text)
}

/// The audio bytes that a base64 text carries; `InvalidAudio` exactly when the
/// text is not valid standard base64.
pub fn decode_audio(text: &str) -> (r: Result<Vec<u8>, TranscribeError>)
    ensures
        base64_standard(text@) matches Some(b) ==> (r matches Ok(v) && v@ == b),
        base64_standard(text@) is None ==> r == Err::<Vec<u8>, TranscribeError>(
            TranscribeError::InvalidAudio,
        ),
{
    match decode_standard(text) {
        Ok(bytes) => Ok(bytes),
        Err(_) => Err(TranscribeError::InvalidAudio),
    }
}

} // verus!
