[package]
name = "cloud_client"
version = "0.1.0"
edition = "2021"
publish = false

[dependencies]
reqwest = { version = "=0.12.28", default-features = false, features = ["rustls-tls", "http2"] }
rustls-pki-types = "=1.15.1"
rustls-webpki = "=0.103.15"
serde_json = "*"
url = "=2.5.8"
