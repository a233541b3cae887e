[package]
name = "transport_select"
version = "0.1.0"
edition = "2021"
publish = false

[dependencies]
hickory-proto = { version = "=0.25.2", default-features = false }
rustls = { version = "=0.23.45", default-features = false, features = ["ring", "logging", "std", "tls12"] }
rustls-platform-verifier = "=0.7.1"
webpki-roots = "=1.0.9"
