[package]
name = "deepl_cli"
version = "0.1.0"
edition = "2021"
publish = false

[dependencies]
deeprl = "*"
serde_json = "*"
anyhow = "*"
clap = { version = "*", features = ["derive"] }
