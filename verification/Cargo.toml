[package]
name = "chainauth"
version = "0.1.0"
edition = "2021"
publish = false

[dependencies]
rust-crypto = "0.2"
ed25519-dalek = "1"
rand = "0.8"
