[package]
name = "matrix_client_boilerplate"
version = "0.1.0"
edition = "2021"
publish = false

[dependencies]
matrix-sdk = { version = "=0.6.2", default-features = false, features = ["sled", "rustls-tls"] }
tokio = { version = "=1.53.2", features = ["rt"] }
anyhow = "=1.0.104"
log = "=0.4.34"
