[package]
name = "carbon_escrow"
version = "0.1.0"
edition = "2021"
publish = false

[dependencies]
soroban-sdk = "=22.0.11"

[dev-dependencies]
soroban-sdk = { version = "=22.0.11", features = ["testutils"] }
# Keeps the resolver from ed25519-dalek 3, which the host's test utilities
# were not written for.
subtle = "=2.5.0"
