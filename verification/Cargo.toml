[package]
name = "hookswap"
version = "0.1.0"
edition = "2021"
publish = false

[dependencies]
anchor-lang = "*"
anchor-spl = "*"
spl-associated-token-account = { version = "*", features = ["no-entrypoint"] }
spl-tlv-account-resolution = "*"
spl-token-2022 = { version = "*", features = ["no-entrypoint"] }
spl-transfer-hook-interface = "*"
