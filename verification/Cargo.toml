[package]
name = "defi_agent"
version = "0.1.0"
edition = "2021"
publish = false

[dependencies]
anchor-lang = "*"
ephemeral-rollups-sdk = { version = "*", features = ["anchor"] }
