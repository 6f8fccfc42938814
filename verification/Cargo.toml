[package]
name = "biscuit_format"
version = "0.1.0"
edition = "2021"
publish = false

[dependencies]
curve25519-dalek = "3"
