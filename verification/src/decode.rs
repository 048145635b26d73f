//! Turning the provider's bytes into text.

use vstd::prelude::*;
use vstd::utf8::*;

verus! {

/// The text with which the standard library's UTF-8 decoder describes why
/// the given bytes are not valid UTF-8. It is only meaningful on bytes that
/// are not.
pub uninterp spec fn utf8_diagnostic(bytes: Seq<u8>) -> Seq<char>;

/// What decoding yields: the text that the bytes encode, or else the
/// decoder's diagnostic.
pub open spec fn decoding(bytes: Seq<u8>) -> Result<Seq<char>, Seq<char>> {
    if valid_utf8(bytes) {
        Ok(decode_utf8(bytes))
    } else {
        Err(utf8_diagnostic(bytes))
    }
}

/// The mathematical value of a decoding result.
pub open spec fn decoded_view(decoded: Result<String, String>) -> Result<Seq<char>, Seq<char>> {
    match decoded {
        Ok(text) => Ok(text@),
        Err(diagnostic) => Err(diagnostic@),
    }
}

/// Decodes bytes as UTF-8 with `std::str::from_utf8`.
///
/// Trusted, not proved: that the standard library accepts exactly the
/// well-formed UTF-8 sequences, that the string it returns has the given
/// bytes as its encoding, and that the `Utf8Error` it returns otherwise
/// renders to a text that depends on the bytes alone.
#[verifier::external_body]
pub(crate) fn decode_text(bytes: &[u8]) -> (decoded: Result<String, String>)
    ensures
        match decoded {
            Ok(text) => valid_utf8(bytes@) && text@ == decode_utf8(bytes@),
            Err(diagnostic) => !valid_utf8(bytes@) && diagnostic@ == utf8_diagnostic(bytes@),
        },
{
    match std::str::from_utf8(bytes) {
        Ok(text) => Ok(text.to_owned()),
        Err(error) => Err(error.to_string()),
    }
}

} // verus!
