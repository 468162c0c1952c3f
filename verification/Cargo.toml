[package]
name = "solana_predict"
version = "0.1.0"
edition = "2021"
publish = false

[dependencies]
anchor-lang = { version = "=0.31.1", features = ["init-if-needed"] }
anchor-spl = "=0.31.1"
pyth-solana-receiver-sdk = "=0.6.1"
