use tokio::task::JoinError;
use verify_rust::adapter::worker_failed;
use verify_rust::{verify_proof, verify_proof_async, VerifyError};

fn runtime() -> tokio::runtime::Runtime {
    tokio::runtime::Builder::new_current_thread()
        .build()
        .unwrap()
}

fn join<F>(work: F) -> Result<Result<String, VerifyError>, JoinError>
where
    F: FnOnce() -> Result<String, VerifyError> + Send + 'static,
{
    runtime().block_on(async { tokio::task::spawn_blocking(work).await })
}

#[test]
fn completed_worker_hands_its_outcome_through() {
    let joined = join(|| verify_proof(Some(b"SUCCESS: proof valid".to_vec())));
    assert_eq!(
        verify_proof_async(joined),
        Ok("SUCCESS: proof valid".to_string())
    );
    let joined = join(|| verify_proof(Some(b"invalid proof".to_vec())));
    assert_eq!(
        verify_proof_async(joined),
        Err(VerifyError::VerificationFailed("invalid proof".to_string()))
    );
    let joined = join(|| verify_proof(None));
    assert_eq!(verify_proof_async(joined), Err(VerifyError::NullPointer));
}

#[test]
fn crashed_worker_is_a_failed_verification() {
    let joined = join(|| panic!("provider crashed"));
    let reason = joined.as_ref().unwrap_err().to_string();
    assert!(reason.contains("provider crashed"));
    assert_eq!(
        verify_proof_async(joined),
        Err(VerifyError::VerificationFailed(format!(
            "Task join error: {}",
            reason
        )))
    );
}

#[test]
fn cancelled_worker_is_a_failed_verification() {
    let joined: Result<Result<String, VerifyError>, JoinError> = runtime().block_on(async {
        let handle = tokio::spawn(async {
            loop {
                tokio::task::yield_now().await;
            }
        });
        handle.abort();
        handle.await
    });
    let reason = joined.as_ref().unwrap_err().to_string();
    assert!(reason.contains("cancelled"));
    match verify_proof_async(joined) {
        Err(VerifyError::VerificationFailed(message)) => {
            assert_eq!(message, format!("Task join error: {}", reason));
        }
        other => panic!("unexpected outcome: {:?}", other),
    }
}

#[test]
fn worker_failure_names_the_reason() {
    assert_eq!(
        worker_failed("task 7 panicked"),
        VerifyError::VerificationFailed("Task join error: task 7 panicked".to_string())
    );
    assert_eq!(
        worker_failed(""),
        VerifyError::VerificationFailed("Task join error: ".to_string())
    );
}
