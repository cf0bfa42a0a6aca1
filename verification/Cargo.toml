[package]
name = "myrss"
version = "0.1.0"
edition = "2021"
publish = false

[dependencies]
ammonia = "4"
markdown = "*"
chrono = "0.4"
tokio = { version = "1", features = ["full"] }
tokio-stream = { version = "0.1", features = ["sync"] }
futures = "0.3"
axum = "0.7"
axum-extra = { version = "0.9", features = ["cookie"] }
askama = "0.12"
async-openai = "0.27"
serde = { version = "1", features = ["derive"] }
serde_json = "1"
log = "0.4"
env_logger = "0.11"
anyhow = "1"
thiserror = "1"
tower-http = { version = "0.5", features = ["fs"] }
