[package]
name = "spring_opentelemetry"
version = "0.1.0"
edition = "2021"
publish = false

[dependencies]
anyhow = "1"
opentelemetry = "0.24"
opentelemetry-appender-tracing = "0.5"
opentelemetry-jaeger-propagator = "0.3"
opentelemetry-otlp = { version = "0.17", features = ["grpc-tonic", "trace", "metrics", "logs"] }
opentelemetry-resource-detectors = "0.3"
opentelemetry-semantic-conventions = "0.16"
opentelemetry-zipkin = "0.22"
opentelemetry_sdk = { version = "0.24", features = ["rt-tokio"] }
spring = "*"
tracing = "0.1"
tracing-opentelemetry = "0.25"
