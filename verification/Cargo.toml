[package]
name = "task_bounty"
version = "0.1.0"
edition = "2021"
publish = false

[dependencies]
anchor-lang = { version = "=0.32.2", features = ["init-if-needed"] }
ephemeral-rollups-sdk = { version = "=0.17.3", features = ["anchor-compat"] }
