[package]
name = "rustguard"
version = "0.1.0"
edition = "2021"
publish = false

[dependencies]
anyhow = "1"
ipnetwork = "*"
log = "0.4"
pnet = "*"
serde = { version = "1", features = ["derive"] }
simplelog = "*"
toml = "*"
