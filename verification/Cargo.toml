[package]
name = "autoschematic_verification"
version = "0.1.0"
edition = "2021"
publish = false

[dependencies]
anyhow = "*"
clap = { version = "*", features = ["derive"] }
redb = "*"
ron = "*"
serde = { version = "*", features = ["derive"] }
serde_json = "*"
