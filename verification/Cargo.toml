[package]
name = "stake_accounts"
version = "0.1.0"
edition = "2021"
publish = false

[dependencies]
solana-sdk = "~1.1"
solana-stake-program = "~1.1"
