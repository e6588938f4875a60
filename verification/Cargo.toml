[package]
name = "multisend"
version = "0.1.0"
edition = "2021"
publish = false

[dependencies]
borsh = "=0.9.3"
solana-program = "=1.14.29"
solana-sdk = "=1.14.29"
spl-token = { version = "=3.5.0", features = ["no-entrypoint"] }
