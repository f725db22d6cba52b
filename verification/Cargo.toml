[package]
name = "webhook_manager"
version = "0.1.0"
edition = "2021"
publish = false

[dependencies]
anyhow = "=1.0.104"
async-trait = "=0.1.92"
axum = { version = "=0.8.9", features = ["ws"] }
axum-prometheus = "=0.10.1"
axum-tracing-opentelemetry = "=0.42.1"
chrono = { version = "=0.4.45", features = ["serde"] }
redis = { version = "=1.8.1", features = ["tokio-comp", "json"] }
regex = "=1.13.1"
reqwest = { version = "=0.13.5", default-features = false }
serde = { version = "=1.0.229", features = ["derive"] }
serde_json = "=1.0.154"
thiserror = "=2.0.21"
tokio = { version = "=1.54.1", features = ["full"] }
tower-http = { version = "=0.6.11", features = ["cors", "trace"] }
tracing = "=0.1.44"
utoipa = { version = "=5.5.0", features = ["uuid", "chrono"] }
utoipa-swagger-ui = { version = "=9.0.2", features = ["axum", "vendored"] }
uuid = { version = "=1.29.1", features = ["serde", "v4"] }
