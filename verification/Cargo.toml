[package]
name = "setup_my_mac"
version = "0.1.0"
edition = "2021"
publish = false

[dependencies]
anyhow = "1"
clap = { version = "4", features = ["derive"] }
color-eyre = "*"
console = "*"
dialoguer = "*"
indicatif = "*"
serde = { version = "1", features = ["derive"] }
shellexpand = "*"
tempfile = "3"
toml = "*"
tracing = "0.1"
tracing-subscriber = { version = "0.3", features = ["env-filter"] }
