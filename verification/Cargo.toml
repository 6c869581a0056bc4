[package]
name = "wassette_gkeep"
version = "0.1.0"
edition = "2021"
publish = false

[dependencies]
serde = { version = "=1.0.229", features = ["derive"] }
serde_json = "=1.0.154"
spin-sdk = "=3.1.1"
spin-executor = "=3.1.1"
wit-bindgen = "=0.16.0"
