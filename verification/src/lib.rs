//! A verified core for a boundary around a foreign proof-verification routine.
//!
//! The foreign routine hands back a buffer of bytes, or nothing. This crate
//! holds every decision taken on that answer: in which order the buffer is
//! copied and released, how its bytes become text, how the text is classified,
//! and how the outcome is rendered for a host runtime. The calls across the
//! boundary themselves are made by the embedding program, which passes plain
//! values in and takes plain values back.
//!
//! - [`exchange`]: the steps of one exchange with the provider.
//! - [`wrapper`]: from the provider's response to a classified outcome.
//! - [`adapter`]: the outcome of a call that ran on a worker.
//! - [`bridge`]: the text that a host runtime receives.
//! - [`error`], [`marker`], [`decode`]: what the others are built from.

pub mod adapter;
pub mod bridge;
pub mod decode;
pub mod error;
pub mod exchange;
pub mod marker;
pub mod wrapper;

pub use crate::adapter::verify_proof_async;
pub use crate::bridge::Java_com_zkverify_MainActivity_testConnection;
pub use crate::bridge::Java_com_zkverify_MainActivity_verifyProof;
pub use crate::error::VerifyError;
pub use crate::wrapper::verify_proof;
pub use crate::wrapper::verify_proof_simple;
