[package]
name = "video_catalog"
version = "0.1.0"
edition = "2021"
publish = false

[dependencies]
async-trait = "0.1"
axum = "*"
chrono = { version = "0.4", features = ["serde"] }
elasticsearch = { version = "8.5.0-alpha.1", default-features = false, features = ["rustls-tls"] }
rdkafka = "*"
serde = { version = "1", features = ["derive"] }
serde_json = "1"
testcontainers = "*"
testcontainers-modules = { version = "*", features = ["elastic_search", "kafka"] }
thiserror = "2"
tokio = { version = "1", features = ["full"] }
tracing = "0.1"
url = "2"
uuid = { version = "1", features = ["v4"] }
