[package]
name = "execution_sandbox"
version = "0.1.0"
edition = "2021"
publish = false

[dependencies]
anyhow = "1"
thiserror = "1"
tokio = { version = "1", features = ["sync", "rt", "time"] }
tracing = "0.1"
