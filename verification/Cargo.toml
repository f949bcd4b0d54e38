[package]
name = "epoch_pipeline"
version = "0.1.0"
edition = "2021"
publish = false

[dependencies]
regex = "1"
serde_json = "1"
serde = { version = "1", features = ["derive"] }
bincode = "1"
log = "0.4"
postgres = { version = "0.19", features = ["with-serde_json-1"] }
solana-sdk = "1"
solana-config-program = "1"
