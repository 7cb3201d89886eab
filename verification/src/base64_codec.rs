//! Base64 decoding of uploaded file contents, done by the `base64` crate.

use vstd::prelude::*;
use vstd::string::StringSliceAdditionalSpecFns;
use base64::Engine;

verus! {

/// The bytes that the standard Base64 engine (RFC 4648 alphabet, canonical
/// `=` padding) decodes from the input bytes, or `None` when it rejects them.
pub uninterp spec fn base64_standard_decoded(text: Seq<u8>) -> Option<Seq<u8>>;

/// The `Display` text of the `DecodeError` that the standard engine gives
/// for input bytes it rejects (it names the offending byte and offset).
pub uninterp spec fn base64_decode_error(text: Seq<u8>) -> Seq<char>;

/// `base64::engine::general_purpose::STANDARD.decode(text)`, the error as
/// its `Display` text. Claimed: the result is the one named
/// `base64_standard_decoded` of the text's UTF-8 bytes, it is `Ok` exactly
/// when that name gives bytes, and an error reads `base64_decode_error` of
/// those bytes.
#[verifier::external_body]
pub(crate) fn base64_decode(text: &str) -> (r: Result<Vec<u8>, String>)
    ensures
        r is Ok <==> base64_standard_decoded(text.spec_bytes()) is Some,
        r matches Ok(bytes) ==> bytes@ == base64_standard_decoded(text.spec_bytes())->0,
        r matches Err(e) ==> e@ == base64_decode_error(text.spec_bytes()),
{
    base64::engine::general_purpose::STANDARD.decode(text).map_err(|e| e.to_string())
}

} // verus!
