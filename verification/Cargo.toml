[package]
name = "token_swap"
version = "0.1.0"
edition = "2021"
publish = false

[dependencies]
spl-math = { version = "=0.1.0", features = ["no-entrypoint"] }
anchor-lang = { version = "=0.26.0", features = ["init-if-needed"] }
anchor-spl = "=0.26.0"
pyth-sdk-solana = "=0.7.2"
