//! The async adapter: what a caller gets when the verification call ran on a
//! worker of the tokio runtime.
//!
//! Spawning the worker and awaiting it is the embedding program's part. What
//! it gets from the await comes here: the outcome of the call if the worker
//! completed, tokio's `JoinError` if it did not.

use tokio::task::JoinError;
use vstd::prelude::*;
use vstd::string::*;

use crate::error::{Failure, VerifyError};

verus! {

#[verifier::external_type_specification]
#[verifier::external_body]
pub struct ExJoinError(JoinError);

/// The failure reported for a worker that did not complete, given the
/// runtime's account of why.
pub open spec fn join_failure(reason: Seq<char>) -> Failure {
    Failure::VerificationFailed("Task join error: "@ + reason)
}

/// The failure is the one reported for a worker that did not complete, for
/// some reason or other.
pub open spec fn reports_join_failure(failure: Failure) -> bool {
    exists|reason: Seq<char>| failure == #[trigger] join_failure(reason)
}

/// Renders a `JoinError` with its `Display` impl.
///
/// Trusted, and nothing is claimed of the text: tokio puts the task's number
/// in it, which differs from run to run.
#[verifier::external_body]
fn join_error_text(error: &JoinError) -> (reason: String) {
    error.to_string()
}

/// The error for a worker that did not complete for the given reason.
pub fn worker_failed(reason: &str) -> (error: VerifyError)
    ensures
        error@ == join_failure(reason@),
{
    VerifyError::VerificationFailed(String::from_str("Task join error: ").concat(reason))
}

/// Resolves what awaiting the worker gave into the outcome of the call.
///
/// A worker that completed hands its outcome through unchanged. One that did
/// not, because it panicked or its runtime shut down, is reported as a failed
/// verification whose message says so: the result is never dropped.
pub fn verify_proof_async(joined: Result<Result<String, VerifyError>, JoinError>) -> (outcome: Result<
    String,
    VerifyError,
>)
    ensures
        joined matches Ok(completed) ==> outcome == completed,
        joined is Err ==> (outcome matches Err(error) && reports_join_failure(error@)),
{
    match joined {
        Ok(completed) => completed,
        Err(error) => {
            let reason = join_error_text(&error);
            Err(worker_failed(reason.as_str()))
        },
    }
}

} // verus!
