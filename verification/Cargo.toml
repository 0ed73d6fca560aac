[package]
name = "staking_ledger"
version = "0.1.0"
edition = "2021"
publish = false

[dependencies]
anyhow = "=1.0.104"
near-sdk = { version = "=4.1.1", default-features = false }
near-units = "=0.2.0"
serde_json = "=1.0.154"
tokio = { version = "=1.54.1", features = ["full"] }
workspaces = { version = "=0.7.0", default-features = false }
