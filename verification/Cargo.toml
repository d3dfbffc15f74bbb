[package]
name = "soulfire_client"
version = "0.1.0"
edition = "2021"
publish = false

[dependencies]
sha2 = "0.10"
hex = "0.4"
flate2 = "1"
tar = "0.4"
zip = "*"
strip-ansi-escapes = "0.2"
serde_json = "1"
reqwest = { version = "0.12", default-features = false, features = ["blocking", "rustls-tls"] }
