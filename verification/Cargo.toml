[package]
name = "token_locker"
version = "0.1.0"
edition = "2021"
publish = false

[dependencies]
near-sdk = { version = "=5.29.1", features = ["legacy", "non-contract-usage"] }
near-contract-standards = "=5.29.1"
near-account-id = "=2.6.0"
serde_json = "=1.0.154"
