[package]
name = "cashback"
version = "0.1.0"
edition = "2021"
publish = false

[dependencies]
ed25519-dalek = "=2.2.0"
near-sdk = { version = "=5.29.1", features = ["non-contract-usage"] }
