[package]
name = "live_metrics"
version = "0.1.0"
edition = "2021"
publish = false

[dependencies]
http = "*"
flate2 = "*"
bytes = "*"
serde = { version = "*", features = ["derive"] }
serde_json = "*"
sysinfo = "*"
futures-util = "*"
backon = "*"
opentelemetry = "*"
opentelemetry_sdk = { version = "*", features = ["experimental_async_runtime"] }
opentelemetry-http = "*"
opentelemetry-semantic-conventions = "*"
