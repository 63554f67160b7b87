[package]
name = "kingdom_notice"
version = "0.1.0"
edition = "2021"
publish = false

[dependencies]
scraper = "*"
encoding = "0.2"
tokio = { version = "1", features = ["full"] }
reqwest = { version = "0.11", default-features = false, features = ["rustls-tls"] }
anyhow = "1"
serde_json = "1"
