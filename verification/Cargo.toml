[package]
name = "ton_wallet_api"
version = "0.1.0"
edition = "2021"
publish = false

[dependencies]
anyhow = "*"
axum = "*"
http = "*"
log = "*"
metrics = "*"
serde = { version = "*", features = ["derive"] }
tokio = { version = "*", features = ["time"] }
