use verify_rust::bridge::{render_outcome, CONNECTION_TEXT};
use verify_rust::{
    Java_com_zkverify_MainActivity_testConnection, Java_com_zkverify_MainActivity_verifyProof,
    VerifyError,
};

#[test]
fn provider_success_reaches_the_host() {
    let response = Some(b"SUCCESS: proof valid".to_vec());
    assert_eq!(
        verify_rust::verify_proof(response.clone()),
        Ok("SUCCESS: proof valid".to_string())
    );
    assert!(verify_rust::verify_proof_simple(response.clone()));
    assert_eq!(
        Java_com_zkverify_MainActivity_verifyProof(response),
        "SUCCESS: SUCCESS: proof valid"
    );
}

#[test]
fn provider_rejection_reaches_the_host() {
    let response = Some(b"invalid proof".to_vec());
    assert_eq!(
        verify_rust::verify_proof(response.clone()),
        Err(VerifyError::VerificationFailed("invalid proof".to_string()))
    );
    assert!(!verify_rust::verify_proof_simple(response.clone()));
    assert_eq!(
        Java_com_zkverify_MainActivity_verifyProof(response),
        "ERROR: Verification failed: invalid proof"
    );
}

#[test]
fn provider_null_pointer_reaches_the_host() {
    assert_eq!(verify_rust::verify_proof(None), Err(VerifyError::NullPointer));
    let text = Java_com_zkverify_MainActivity_verifyProof(None);
    assert_eq!(
        text,
        "ERROR: Critical error: Received null pointer from verification"
    );
    assert!(text.contains("null pointer"));
}

#[test]
fn bridge_reports_invalid_encoding() {
    assert_eq!(
        Java_com_zkverify_MainActivity_verifyProof(Some(vec![0x61, 0x62, 0xff])),
        "ERROR: Error: Invalid response format: invalid utf-8 sequence of 1 bytes from index 2"
    );
}

#[test]
fn bridge_renders_each_outcome() {
    assert_eq!(render_outcome(&Ok("SUCCESS".to_string())), "SUCCESS: SUCCESS");
    assert_eq!(render_outcome(&Ok(String::new())), "SUCCESS: ");
    assert_eq!(
        render_outcome(&Err(VerifyError::NullPointer)),
        "ERROR: Critical error: Received null pointer from verification"
    );
    assert_eq!(
        render_outcome(&Err(VerifyError::InvalidEncoding("bad byte".to_string()))),
        "ERROR: Error: Invalid response format: bad byte"
    );
    assert_eq!(
        render_outcome(&Err(VerifyError::VerificationFailed("Task join error: gone".to_string()))),
        "ERROR: Verification failed: Task join error: gone"
    );
}

#[test]
fn bridge_text_always_starts_with_a_status() {
    let responses = [
        None,
        Some(Vec::new()),
        Some(b"SUCCESS".to_vec()),
        Some(b"ERROR".to_vec()),
        Some(vec![0x80]),
    ];
    for response in responses {
        let text = Java_com_zkverify_MainActivity_verifyProof(response);
        assert!(text.starts_with("SUCCESS: ") || text.starts_with("ERROR: "));
    }
}

#[test]
fn connection_text_is_fixed() {
    let first = Java_com_zkverify_MainActivity_testConnection();
    let second = Java_com_zkverify_MainActivity_testConnection();
    assert_eq!(first, second);
    assert_eq!(first, CONNECTION_TEXT);
    assert!(!first.is_empty());
    assert_eq!(
        first,
        "🦀 Rust library connection successful!\n✅ JNI bridge working\n✅ Ready for ZK verification"
    );
}
