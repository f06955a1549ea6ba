[package]
name = "escrow"
version = "0.1.0"
edition = "2021"
publish = false

[dependencies]
sha2 = "=0.10.9"
solana-program = "=5.1.0"
solana-sdk-ids = "=3.1.0"
solana-system-interface = { version = "=3.3.0", features = ["bincode"] }
spl-token = { version = "=9.0.0", default-features = false, features = ["no-entrypoint"] }
