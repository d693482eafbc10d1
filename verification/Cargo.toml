[package]
name = "chain_verifier"
version = "0.1.0"
edition = "2021"
publish = false

[dependencies]
bitcoin = "*"
lightning = "*"
lightning-block-sync = { version = "*", features = ["rest-client"] }
tokio = { version = "*", features = ["rt-multi-thread", "macros"] }
