[package]
name = "proof_of_reserves"
version = "0.1.0"
edition = "2021"
publish = false

[dependencies]
hex = "0.4"
risc0-zkvm = { version = "*", default-features = false }
