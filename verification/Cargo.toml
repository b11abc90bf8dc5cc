[package]
name = "certbuilder"
version = "0.1.0"
edition = "2021"
publish = false

[dependencies]
pkix = "=0.2.6"
mbedtls = { version = "=0.13.6", features = ["rdrand"] }
chrono = "=0.4.45"
serde = { version = "=1.0.229", features = ["derive"] }
thiserror = "=2.0.21"
