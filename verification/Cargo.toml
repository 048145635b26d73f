[package]
name = "verify_rust"
version = "0.1.0"
edition = "2021"
publish = false

[dependencies]
jni = "0.21"
libc = "0.2"
tokio = { version = "1", features = ["rt"] }
