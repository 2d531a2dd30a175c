[package]
name = "ws_pubsub"
version = "0.1.0"
edition = "2021"
publish = false

[dependencies]
anyhow = "1"
axum = { version = "*", features = ["ws"] }
axum-extra = { version = "*", features = ["typed-header"] }
futures-util = { version = "0.3", features = ["sink"] }
redis = { version = "*", features = ["tokio-comp", "aio"] }
serde = { version = "1", features = ["derive"] }
serde_json = "1"
thiserror = "*"
tokio = { version = "1", features = ["full"] }
tokio-util = "*"
uuid = { version = "1", features = ["v4", "serde"] }
