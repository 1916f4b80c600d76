//! Base64, as the `base64` crate decodes it.

use vstd::prelude::*;
use base64::Engine;

verus! {

/// `base64::DecodeError` is a plain enumeration: what is wrong with the
/// input, with the offset and the offending byte where there is one.
#[verifier::external_type_specification]
pub struct ExDecodeError(base64::DecodeError);

/// What the standard alphabet with canonical padding decodes a text to: the
/// bytes, or the reason why the text is not valid base64.
pub uninterp spec fn base64_decoding(text: Seq<char>) -> Result<Seq<u8>, base64::DecodeError>;

/// The text that a decoding error is displayed as.
pub uninterp spec fn decode_error_text(error: base64::DecodeError) -> Seq<char>;

/// `Engine::decode` of `base64::engine::general_purpose::STANDARD`: decodes
/// the whole text, or reports the first thing that is wrong with it.
#[verifier::external_body]
pub(crate) fn decode_standard(text: &str) -> (decoded: Result<Vec<u8>, base64::DecodeError>)
    ensures
        match decoded {
            Ok(bytes) => base64_decoding(text@) == Ok::<Seq<u8>, base64::DecodeError>(bytes@),
            Err(error) => base64_decoding(text@) == Err::<Seq<u8>, base64::DecodeError>(error),
        },
{
    base64::engine::general_purpose::STANDARD.decode(text)
}

/// `Display` for `base64::DecodeError`: a sentence that names the kind of
/// error and its particulars.
#[verifier::external_body]
pub(crate) fn display_decode_error(error: &base64::DecodeError) -> (text: String)
    ensures
        text@ == decode_error_text(*error),
{
    error.to_string()
}

} // verus!
