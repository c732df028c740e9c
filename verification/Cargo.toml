[package]
name = "chat_hub"
version = "0.1.0"
edition = "2021"
publish = false

[dependencies]
axum = { version = "0.7", features = ["ws"] }
futures = "0.3"
serde_json = "1"
shuttle-axum = "0.47"
shuttle-runtime = "0.47"
tokio = { version = "1", features = ["sync", "rt", "macros"] }
tower-http = { version = "0.5", features = ["auth"] }
