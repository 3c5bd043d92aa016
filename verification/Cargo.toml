[package]
name = "tubecast"
version = "0.1.0"
edition = "2021"
publish = false

[dependencies]
reqwest = { version = "=0.12.28", default-features = false, features = ["blocking", "json", "rustls-tls"] }
serde_json = "=1.0.151"

[dev-dependencies]
regex = "1"
