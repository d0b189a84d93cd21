[package]
name = "svs_vault"
version = "0.1.0"
edition = "2021"
publish = false

[dependencies]
anchor-lang = "*"
anchor-spl = "*"
pyth-solana-receiver-sdk = "*"
