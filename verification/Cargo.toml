[package]
name = "trace_pipeline"
version = "0.1.0"
edition = "2021"
publish = false

[dependencies]
opentelemetry = "*"
opentelemetry_sdk = "*"
opentelemetry-otlp = { version = "*", features = ["grpc-tonic"] }
opentelemetry-semantic-conventions = "*"
tokio = { version = "*", features = ["rt-multi-thread", "macros"] }
