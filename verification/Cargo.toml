[package]
name = "secret_keys"
version = "0.1.0"
edition = "2021"
publish = false

[dependencies]
threshold_crypto = "*"
ed25519-dalek = "*"
serde = { version = "1", features = ["derive"] }
bincode = "1"
