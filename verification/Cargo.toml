[package]
name = "ristretto_hash"
version = "0.1.0"
edition = "2021"
publish = false

[dependencies]
curve25519-dalek = "3"
sha2 = "0.9"
