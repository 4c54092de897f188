[package]
name = "espx_ui"
version = "0.1.0"
edition = "2021"
publish = false

[dependencies]
markdown = "*"
serde_json = "1"
axum = { version = "0.6", features = ["ws"] }
tokio = { version = "1", features = ["full"] }
futures = "0.3"
serde = { version = "1", features = ["derive"] }
