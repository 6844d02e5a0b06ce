[package]
name = "esp32_bench"
version = "0.1.0"
edition = "2021"
publish = false

[dependencies]
ej-builder-sdk = "*"
tokio = { version = "1", features = ["process", "io-util"] }
tokio-serial = "*"
tracing = "0.1"
