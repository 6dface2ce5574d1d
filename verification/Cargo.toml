[package]
name = "fred_api"
version = "0.1.0"
edition = "2021"
publish = false

[dependencies]
serde_json = "1"
keytree = "*"
reqwest = { version = "*", default-features = false, features = ["blocking", "rustls-tls"] }
