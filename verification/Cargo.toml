[package]
name = "rustup_distribution"
version = "0.1.0"
edition = "2021"
publish = false

[dependencies]
anyhow = "*"
clap = { version = "*", features = ["derive"] }
curl = "*"
serde = { version = "*", features = ["derive"] }
serde_yaml = "*"
url = "*"
