[package]
name = "stake_amm"
version = "0.1.0"
edition = "2021"
publish = false

[dependencies]
anchor-lang = { version = "0.30.1", features = ["init-if-needed"] }
anchor-spl = "0.30.1"
spl-math = { version = "0.2.0", features = ["no-entrypoint"] }
