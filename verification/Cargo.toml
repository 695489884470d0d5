[package]
name = "vestor"
version = "0.1.0"
edition = "2021"
publish = false

[dependencies]
anchor-lang = "*"
anchor-spl = "*"
chainlink_solana = "*"
pyth-client = "*"
spl-token = "*"
