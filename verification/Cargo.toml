[package]
name = "middle_mqtt"
version = "0.1.0"
edition = "2021"
publish = false

[dependencies]
chrono = { version = "0.4", features = ["serde"] }
uuid = { version = "1", features = ["v4", "serde"] }
serde = { version = "1", features = ["derive"] }
serde_json = "1"
tokio = { version = "1", features = ["full"] }
axum = { version = "0.8", features = ["ws"] }
tower-http = { version = "0.6", features = ["cors", "trace"] }
rumqttc = "0.25.1"
dashmap = "6"
libsql = { version = "*", default-features = false, features = ["remote"] }
futures = "0.3"
anyhow = "1"
dotenvy = "0.15"
