[package]
name = "token_2022_amm"
version = "0.1.0"
edition = "2021"
publish = false

[dependencies]
spl-token-2022-interface = "=3.1.2"
spl-transfer-hook-interface = "=2.1.0"
solana-program-error = "=3.0.1"
solana-address = "=2.9.0"
