[package]
name = "http_req"
version = "0.1.0"
edition = "2021"
publish = false

[dependencies]
native-tls = "0.2"
rustls = { version = "0.23", default-features = false, features = ["std"] }
