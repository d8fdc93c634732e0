[package]
name = "connector_webhooks"
version = "0.1.0"
edition = "2021"
publish = false

[dependencies]
serde = { version = "1", features = ["derive"] }
serde_json = "1"
error-stack = "0.4.1"
utoipa = "4.2"
