[package]
name = "dgc_core"
version = "0.1.0"
edition = "2021"
publish = false

[dependencies]
rust-crypto = "*"
sawtooth-sdk = "*"
