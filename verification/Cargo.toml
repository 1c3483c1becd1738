[package]
name = "messaging"
version = "0.1.0"
edition = "2021"
publish = false

[dependencies]
actix-web = "*"
config = "*"
eyre = "*"
futures-util = "*"
log = "*"
opentelemetry = "*"
opentelemetry-otlp = { version = "*", features = ["grpc-tonic"] }
opentelemetry_sdk = "*"
serde = { version = "*", features = ["derive"] }
serde-aux = "*"
serde_json = "*"
thiserror = "*"
tokio = { version = "*", features = ["macros", "rt-multi-thread", "time"] }
tracing = "*"
tracing-actix-web = "*"
tracing-bunyan-formatter = "*"
tracing-log = "*"
tracing-opentelemetry = "*"
tracing-subscriber = { version = "*", features = ["env-filter"] }
