[package]
name = "flight_search"
version = "0.1.0"
edition = "2021"
publish = false

[dependencies]
anyhow = "1"
chrono = "0.4"
dotenv = "0.15"
opentelemetry = "*"
opentelemetry_sdk = "*"
opentelemetry-otlp = { version = "*", features = ["grpc-tonic", "trace", "metrics", "logs"] }
opentelemetry-stdout = { version = "*", features = ["trace", "metrics", "logs"] }
opentelemetry-appender-tracing = "*"
reqwest = { version = "0.12", default-features = false }
rig-core = "*"
serde = { version = "1", features = ["derive"] }
serde_json = "1"
thiserror = "2"
tokio = { version = "1", features = ["rt-multi-thread", "macros"] }
tracing = "0.1"
tracing-opentelemetry = "*"
tracing-subscriber = { version = "0.3", features = ["env-filter"] }
