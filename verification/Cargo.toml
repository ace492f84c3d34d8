[package]
name = "dual_recorder"
version = "0.1.0"
edition = "2021"
publish = false

[dependencies]
anyhow = "1"
axum = "*"
chrono = "0.4"
opencv = "*"
shellexpand = "*"
tokio = { version = "1", features = ["full"] }
