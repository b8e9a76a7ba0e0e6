[package]
name = "depot"
version = "0.1.0"
edition = "2021"
publish = false

[dependencies]
blake3 = "=1.8.7"
sha2 = "=0.10.9"
hex = "=0.4.3"
urlencoding = "=2.1.3"
serde = { version = "=1.0.229", features = ["derive"] }
serde_yaml = "=0.9.34"
serde_json = "=1.0.154"
dirs = "=7.0.0"
walkdir = "=2.5.0"
which = "=8.0.6"
clap = { version = "=4.6.7", features = ["derive"] }
keyring = { version = "3", features = ["linux-native"] }
base64 = "0.22"
reqwest = { version = "0.12", default-features = false, features = ["blocking", "json", "rustls-tls"] }
dialoguer = "0.11"
thiserror = "2"
