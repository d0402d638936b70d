[package]
name = "backend"
version = "0.1.0"
edition = "2021"
publish = false

[dependencies]
rust_decimal = "=1.43.0"
uuid = { version = "=1.29.0", features = ["v4"] }
serde = { version = "=1.0.229", features = ["derive"] }
serde_json = "=1.0.154"
chrono = "=0.4.45"
percent-encoding = "=2.3.2"
axum = "=0.8.9"
tokio = { version = "=1.54.1", features = ["rt", "macros", "sync", "time"] }
jsonschema = { version = "*", default-features = false }
