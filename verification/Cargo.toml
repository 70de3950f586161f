[package]
name = "hajime"
version = "0.1.0"
edition = "2021"
publish = false

[dependencies]
clap = { version = "*", features = ["derive"] }
keyring = "*"
serde_json = "*"
toml_edit = "*"
