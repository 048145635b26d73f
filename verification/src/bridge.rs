//! The bridge layer: what the host runtime is told.
//!
//! Both entry points return text and nothing else. They have no precondition
//! and no failing path, so nothing can escape across the boundary but the
//! string itself; building the host's string object from it is the caller's
//! part.

use vstd::prelude::*;
use vstd::string::*;

use crate::error::{Failure, VerifyError};
use crate::wrapper::{outcome_view, response_view, verification, verify_proof};

verus! {

/// What the connection test answers, whatever the provider does.
pub const CONNECTION_TEXT: &'static str =
    "🦀 Rust library connection successful!\n✅ JNI bridge working\n✅ Ready for ZK verification";

/// How the bridge describes a failure to the host.
pub open spec fn bridge_failure_text(failure: Failure) -> Seq<char> {
    match failure {
        Failure::NullPointer => "Critical error: Received null pointer from verification"@,
        Failure::InvalidEncoding(diagnostic) => "Error: Invalid response format: "@ + diagnostic,
        Failure::VerificationFailed(message) => "Verification failed: "@ + message,
    }
}

/// The text that the bridge returns for an outcome.
pub open spec fn bridge_text(outcome: Result<Seq<char>, Failure>) -> Seq<char> {
    match outcome {
        Ok(message) => "SUCCESS: "@ + message,
        Err(failure) => "ERROR: "@ + bridge_failure_text(failure),
    }
}

/// Describes a failure for the host.
fn describe_failure(error: &VerifyError) -> (text: String)
    ensures
        text@ == bridge_failure_text(error@),
{
    match error {
        VerifyError::NullPointer => {
            String::from_str("Critical error: Received null pointer from verification")
        },
        VerifyError::InvalidEncoding(diagnostic) => {
            String::from_str("Error: Invalid response format: ").concat(diagnostic.as_str())
        },
        VerifyError::VerificationFailed(message) => {
            String::from_str("Verification failed: ").concat(message.as_str())
        },
    }
}

/// Renders an outcome as the text that the host receives.
pub fn render_outcome(outcome: &Result<String, VerifyError>) -> (text: String)
    ensures
        text@ == bridge_text(outcome_view(*outcome)),
{
    match outcome {
        Ok(message) => String::from_str("SUCCESS: ").concat(message.as_str()),
        Err(error) => {
            let description = describe_failure(error);
            String::from_str("ERROR: ").concat(description.as_str())
        },
    }
}

/// The text of the host's `verifyProof` call for the provider's response.
#[allow(non_snake_case)]
pub fn Java_com_zkverify_MainActivity_verifyProof(response: Option<Vec<u8>>) -> (text: String)
    ensures
        text@ == bridge_text(verification(response_view(response))),
{
    let outcome = verify_proof(response);
    render_outcome(&outcome)
}

/// The text of the host's `testConnection` call. It takes nothing from the
/// provider and is the same on every call.
#[allow(non_snake_case)]
pub fn Java_com_zkverify_MainActivity_testConnection() -> (text: String)
    ensures
        text@ == CONNECTION_TEXT@,
        text@.len() > 0,
{
    proof {
        reveal_strlit(
            "🦀 Rust library connection successful!\n✅ JNI bridge working\n✅ Ready for ZK verification",
        );
    }
    String::from_str(CONNECTION_TEXT)
}

} // verus!
