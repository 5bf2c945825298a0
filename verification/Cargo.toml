[package]
name = "escrow_contracts"
version = "0.1.0"
edition = "2021"
publish = false

[dependencies]
anchor-lang = { version = "=0.30.1", features = ["init-if-needed"] }
pyth-sdk-solana = "=0.10.6"
