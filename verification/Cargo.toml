[package]
name = "logging"
version = "0.1.0"
edition = "2021"
publish = false

[dependencies]
opentelemetry = { version = "*", features = ["logs"] }
opentelemetry-appender-tracing = "*"
opentelemetry-otlp = { version = "*", default-features = false, features = ["grpc-tonic", "gzip-tonic", "logs"] }
opentelemetry-stdout = { version = "*", features = ["logs"] }
opentelemetry_sdk = { version = "*", features = ["logs"] }
thiserror = "*"
tracing = "0.1"
tracing-bunyan-formatter = "*"
tracing-log = "*"
tracing-subscriber = "0.3"
