[package]
name = "carbon_ledger"
version = "0.1.0"
edition = "2021"
publish = false

[dependencies]
arbitrary = { version = "1", features = ["derive"] }
ed25519-dalek = { version = "=2.2.0", features = ["rand_core"] }
soroban-sdk = "=22.0.11"

[dev-dependencies]
rand = "=0.8.8"
