//! The failures that a verification call can end in.

use vstd::prelude::*;
use vstd::string::*;

verus! {

/// Why a verification call did not succeed.
#[derive(Debug, PartialEq, Eq)]
pub enum VerifyError {
    /// The provider returned no buffer.
    NullPointer,
    /// The buffer's bytes are not valid UTF-8; the payload is the decoder's diagnostic.
    InvalidEncoding(String),
    /// The text was decoded but does not carry the success marker, or the
    /// worker that ran the call did not complete; the payload is the message.
    VerificationFailed(String),
}

/// The mathematical value of a [`VerifyError`]: its case and its text.
pub enum Failure {
    NullPointer,
    InvalidEncoding(Seq<char>),
    VerificationFailed(Seq<char>),
}

impl View for VerifyError {
    type V = Failure;

    open spec fn view(&self) -> Failure {
        match self {
            VerifyError::NullPointer => Failure::NullPointer,
            VerifyError::InvalidEncoding(diagnostic) => Failure::InvalidEncoding(diagnostic@),
            VerifyError::VerificationFailed(message) => Failure::VerificationFailed(message@),
        }
    }
}

/// The human-readable description of a failure.
pub open spec fn failure_text(failure: Failure) -> Seq<char> {
    match failure {
        Failure::NullPointer => "Received null pointer from C function"@,
        Failure::InvalidEncoding(diagnostic) => "Invalid UTF-8 in response: "@ + diagnostic,
        Failure::VerificationFailed(message) => "Verification failed: "@ + message,
    }
}

impl VerifyError {
    /// Renders the error as text.
    pub fn to_string(&self) -> (text: String)
        ensures
            text@ == failure_text(self@),
    {
        match self {
            VerifyError::NullPointer => String::from_str("Received null pointer from C function"),
            VerifyError::InvalidEncoding(diagnostic) => {
                String::from_str("Invalid UTF-8 in response: ").concat(diagnostic.as_str())
            },
            VerifyError::VerificationFailed(message) => {
                String::from_str("Verification failed: ").concat(message.as_str())
            },
        }
    }
}

} // verus!
