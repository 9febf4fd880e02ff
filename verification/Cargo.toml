[package]
name = "axum_otel_metrics"
version = "0.1.0"
edition = "2021"
publish = false

[dependencies]
axum = "0.7"
futures-util = "0.3"
http = "1"
http-body = "1"
opentelemetry = { version = "0.24", features = ["metrics"] }
opentelemetry-otlp = { version = "0.17", features = ["metrics", "http-proto"] }
opentelemetry-prometheus = "0.17"
opentelemetry_sdk = { version = "0.24", features = ["metrics", "rt-tokio"] }
opentelemetry-semantic-conventions = "0.16"
pin-project-lite = "0.2"
prometheus = "0.13"
tower = "0.4"
