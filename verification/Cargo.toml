[package]
name = "otlp_setup"
version = "0.1.0"
edition = "2021"
publish = false

[dependencies]
opentelemetry = "=0.32.0"
opentelemetry_sdk = "=0.32.1"
opentelemetry-otlp = { version = "=0.32.0", features = ["grpc-tonic", "gzip-tonic", "http-json", "gzip-http"] }
opentelemetry-datadog = { version = "=0.20.1", features = ["reqwest-blocking-client"] }
opentelemetry-appender-tracing = "=0.32.0"
tracing = "=0.1.44"
tracing-subscriber = "=0.3.23"
tracing-opentelemetry = "=0.33.0"
tonic = "=0.14.6"
http = "=1.5.0"
time = { version = "=0.3.55", features = ["formatting"] }

[dev-dependencies]
serde_json = "=1.0.151"
tokio = { version = "=1.53.2", features = ["rt-multi-thread"] }
