[package]
name = "mxselfbot"
version = "0.1.0"
edition = "2021"
publish = false

[dependencies]
chrono = "0.4"
url = "2"
locales = "*"
async-trait = "0.1"
tokio = { version = "1", features = ["macros", "rt-multi-thread"] }
signal-hook = "0.3"
matrix-sdk = { version = "0.3", default-features = false, features = ["rustls-tls"] }
