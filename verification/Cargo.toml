[package]
name = "defi_suite"
version = "0.1.0"
edition = "2021"
publish = false

[dependencies]
anchor-lang = { version = "0.31", features = ["init-if-needed"] }
anchor-spl = { version = "0.31", default-features = false, features = ["token", "associated_token", "token_2022"] }
mpl-core = "0.10"
