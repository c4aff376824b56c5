[package]
name = "settlement_core"
version = "0.1.0"
edition = "2021"
publish = false

[dependencies]
pyth-sdk = "=0.8.0"
