[package]
name = "http_engine"
version = "0.1.0"
edition = "2021"
publish = false

[dependencies]
http = "*"
reqwest = { version = "*", default-features = false, features = ["rustls-tls", "multipart"] }
serde = { version = "*", features = ["derive"] }
tokio = { version = "*", features = ["rt", "macros"] }
