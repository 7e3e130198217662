[package]
name = "cgip"
version = "0.1.0"
edition = "2021"
publish = false

[dependencies]
atty = "=0.2.14"
base64 = "=0.23.1"
clap = { version = "=4.6.7", features = ["derive"] }
dirs = "=7.0.0"
reqwest = { version = "=0.13.5", default-features = false, features = ["blocking", "json"] }
self_update = "=1.3.0"
serde = { version = "=1.0.229", features = ["derive"] }
serde_json = "=1.0.151"
serde_yaml = "=0.9.34"
spinners = "=4.2.0"
toml = "=1.1.6"
