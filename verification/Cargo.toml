[package]
name = "shield_chat"
version = "0.1.0"
edition = "2021"
publish = false

[dependencies]
anchor-lang = "0.31.1"
anchor-spl = "0.31.1"
inco-lightning = "*"
solana-program = "2"
