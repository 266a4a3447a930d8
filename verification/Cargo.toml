[package]
name = "fiat_token"
version = "0.1.0"
edition = "2021"
publish = false

[dependencies]
near-contract-standards = "4.1.1"
near-sdk = { version = "4.1.1", default-features = false }
near-sdk-contract-tools = "0.7.2"
