[package]
name = "og_cache"
version = "0.1.0"
edition = "2021"
publish = false

[dependencies]
html_parser = "=0.7.0"
htmlentity = "=1.3.2"
url = "=2.5.8"
reqwest = { version = "0.12", default-features = false, features = ["rustls-tls"] }
serde = { version = "1", features = ["derive"] }
serde_json = "1"
tokio = { version = "1", features = ["fs", "io-util"] }
