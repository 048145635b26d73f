//! The safe wrapper: from the provider's response to a classified outcome.

use vstd::prelude::*;
use vstd::utf8::*;

use crate::decode::{decode_text, decoded_view, decoding, utf8_diagnostic};
use crate::error::{Failure, VerifyError};
use crate::marker::{contains_marker, has_marker};

verus! {

/// The mathematical value of a provider response: no buffer, or its bytes.
pub open spec fn response_view(response: Option<Vec<u8>>) -> Option<Seq<u8>> {
    match response {
        Some(bytes) => Some(bytes@),
        None => None,
    }
}

/// The mathematical value of an outcome: the success text, or the failure.
pub open spec fn outcome_view(outcome: Result<String, VerifyError>) -> Result<Seq<char>, Failure> {
    match outcome {
        Ok(message) => Ok(message@),
        Err(error) => Err(error@),
    }
}

/// The outcome that a decoding result stands for: text with the marker is
/// the success payload, text without it is the failure message, and a
/// diagnostic is an encoding failure.
pub open spec fn classification(decoded: Result<Seq<char>, Seq<char>>) -> Result<Seq<char>, Failure> {
    match decoded {
        Ok(text) => if has_marker(text) {
            Ok(text)
        } else {
            Err(Failure::VerificationFailed(text))
        },
        Err(diagnostic) => Err(Failure::InvalidEncoding(diagnostic)),
    }
}

/// The outcome of a verification call whose provider gave `response`.
pub open spec fn verification(response: Option<Seq<u8>>) -> Result<Seq<char>, Failure> {
    match response {
        Some(bytes) => classification(decoding(bytes)),
        None => Err(Failure::NullPointer),
    }
}

/// Classifies what decoding the provider's bytes gave.
pub fn classify(decoded: Result<String, String>) -> (outcome: Result<String, VerifyError>)
    ensures
        outcome_view(outcome) == classification(decoded_view(decoded)),
{
    match decoded {
        Ok(text) => {
            if contains_marker(text.as_str()) {
                Ok(text)
            } else {
                Err(VerifyError::VerificationFailed(text))
            }
        },
        Err(diagnostic) => Err(VerifyError::InvalidEncoding(diagnostic)),
    }
}

/// Turns the provider's response into the outcome of the verification call.
///
/// `None` stands for a null pointer; `Some` holds the bytes that were copied
/// out of the provider's buffer, without the terminator.
pub fn verify_proof(response: Option<Vec<u8>>) -> (outcome: Result<String, VerifyError>)
    ensures
        outcome_view(outcome) == verification(response_view(response)),
        response is None ==> outcome == Err::<String, VerifyError>(VerifyError::NullPointer),
{
    match response {
        Some(bytes) => classify(decode_text(bytes.as_slice())),
        None => Err(VerifyError::NullPointer),
    }
}

/// Tells whether the verification call succeeds on the provider's response.
pub fn verify_proof_simple(response: Option<Vec<u8>>) -> (verified: bool)
    ensures
        verified == verification(response_view(response)) is Ok,
{
    verify_proof(response).is_ok()
}

/// A response whose text carries the marker succeeds, and the payload is
/// exactly that text.
pub proof fn lemma_marked_text_succeeds(text: Seq<char>)
    requires
        has_marker(text),
    ensures
        verification(Some(encode_utf8(text))) == Ok::<Seq<char>, Failure>(text),
{
    encode_utf8_valid_utf8(text);
    encode_utf8_decode_utf8(text);
}

/// A response whose text does not carry the marker fails verification, and
/// the message is exactly that text.
pub proof fn lemma_unmarked_text_fails(text: Seq<char>)
    requires
        !has_marker(text),
    ensures
        verification(Some(encode_utf8(text))) == Err::<Seq<char>, Failure>(
            Failure::VerificationFailed(text),
        ),
{
    encode_utf8_valid_utf8(text);
    encode_utf8_decode_utf8(text);
}

/// A response whose bytes are not valid UTF-8 fails with the decoder's
/// diagnostic, whether or not the marker's bytes stand among them.
pub proof fn lemma_invalid_bytes_fail_encoding(bytes: Seq<u8>)
    requires
        !valid_utf8(bytes),
    ensures
        verification(Some(bytes)) == Err::<Seq<char>, Failure>(
            Failure::InvalidEncoding(utf8_diagnostic(bytes)),
        ),
{
}

/// On one response, the boolean call answers `true` exactly when the
/// detailed call returns the success outcome.
pub proof fn lemma_simple_agrees_with_detailed(
    response: Option<Vec<u8>>,
    outcome: Result<String, VerifyError>,
    verified: bool,
)
    requires
        outcome_view(outcome) == verification(response_view(response)),
        verified == verification(response_view(response)) is Ok,
    ensures
        verified <==> outcome is Ok,
{
}

} // verus!
