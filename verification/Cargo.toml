[package]
name = "reparto"
version = "0.1.0"
edition = "2021"
publish = false

[dependencies]
actix = "0.13"
actix_async_handler = "*"
actix-rt = "2"
csv = "1"
rand = "0.9"
rayon = "1"
serde = { version = "1", features = ["derive"] }
serde_json = "1"
tokio = { version = "1", features = ["full"] }
tokio-stream = { version = "0.1", features = ["io-util"] }
