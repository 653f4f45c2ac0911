[package]
name = "imgmc"
version = "0.1.0"
edition = "2021"
publish = false

[dependencies]
base64 = "=0.23.1"
clap = { version = "=4.6.7", features = ["derive"] }
figment = { version = "=0.10.19", features = ["toml"] }
serde = { version = "=1.0.229", features = ["derive"] }
serde_json = "=1.0.151"
slug = "=0.1.6"
ureq = { version = "=3.4.2", features = ["json", "multipart"] }
xdg = "=3.0.0"
