[package]
name = "gmo_coin"
version = "0.1.0"
edition = "2021"
publish = false

[dependencies]
hex = "0.4"
ring = "0.17"
serde_json = "1"
thiserror = "1"
ureq = "3"
reqwest = { version = "0.12", default-features = false, features = ["rustls-tls"] }
