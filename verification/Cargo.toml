[package]
name = "eserde"
version = "0.1.0"
edition = "2021"
publish = false

[dependencies]
serde = { version = "=1.0.229", features = ["derive"] }
serde_json = { version = "=1.0.151", features = ["preserve_order"] }
mime = "=0.3.17"
http = "=1.5.0"
bytes = "=1.12.1"
axum-core = "=0.5.6"
