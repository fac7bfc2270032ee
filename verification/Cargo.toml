[package]
name = "raccoon_otel"
version = "0.1.0"
edition = "2021"
publish = false

[dependencies]
anyhow = "*"
opentelemetry = "*"
opentelemetry_sdk = { version = "*", features = ["trace", "logs"] }
opentelemetry-otlp = { version = "*", features = ["grpc-tonic", "http-proto", "reqwest-blocking-client", "trace", "logs"] }
opentelemetry-appender-tracing = "*"
tracing = "*"
tracing-opentelemetry = "*"
tracing-subscriber = { version = "*", features = ["env-filter", "fmt"] }
tokio = { version = "*", features = ["rt-multi-thread", "macros", "time"] }
