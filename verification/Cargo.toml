[package]
name = "benimator"
version = "1.0.0"
edition = "2021"
publish = false

[dependencies]
anyhow = "1"
ron = "0.8"
serde = { version = "1", features = ["derive"] }
serde_yaml = "0.8"
