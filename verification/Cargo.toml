[package]
name = "bd2wg"
version = "0.1.0"
edition = "2021"
publish = false

[dependencies]
anyhow = "1"
brotli2 = "0.3"
bytes = "1"
crossbeam-channel = "0.5"
indicatif = "0.17"
regex = "1"
reqwest = { version = "0.12", default-features = false, features = ["blocking", "rustls-tls"] }
serde = { version = "1", features = ["derive"] }
serde_json = "1"
thiserror = "2"
zstd = "0.13"
