[package]
name = "request_telemetry"
version = "0.1.0"
edition = "2021"
publish = false

[dependencies]
http = "=1.5.0"
opentelemetry = "=0.33.0"
opentelemetry_sdk = { version = "=0.33.0", features = ["metrics"] }
opentelemetry-otlp = { version = "=0.33.0", default-features = false, features = ["metrics", "http-proto", "reqwest-blocking-client"] }
