[package]
name = "asm_runner"
version = "0.1.0"
edition = "2021"
publish = false

[dependencies]
anyhow = "1"
bitcoin = "0.32"
bitcoincore-zmq = { version = "1.5", features = ["async"] }
bitcoind-async-client = "0.16"
futures = "0.3"
serde = { version = "1", features = ["derive"] }
thiserror = "2"
tokio = { version = "1", features = ["full"] }
tracing = "0.1"
