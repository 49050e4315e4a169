[package]
name = "event_source"
version = "0.1.0"
edition = "2021"
publish = false

[dependencies]
base64 = "0.13"
reqwest = { version = "0.11", default-features = false }
tokio = { version = "1", features = ["full"] }
tokio-tungstenite = "0.18"
rdkafka = { version = "0.29", features = ["tokio"] }
cloudevents-sdk = { version = "0.7", features = ["reqwest", "rdkafka"] }
serde = { version = "1", features = ["derive"] }
serde_json = "1"
anyhow = "1"
thiserror = "1"
log = "0.4"
env_logger = "0.10"
dotenv = "0.15"
futures-util = "0.3"
