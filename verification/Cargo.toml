[package]
name = "sns_emulator"
version = "0.1.0"
edition = "2021"
publish = false

[dependencies]
quick-xml = "*"
uuid = { version = "*", features = ["v4"] }
url = "*"
chrono = "*"
axum = "*"
tokio = { version = "*", features = ["rt-multi-thread", "macros", "net"] }
dashmap = "*"
serde = "*"
aws-config = "*"
aws-sdk-sqs = "*"
tracing = "*"
tracing-subscriber = "*"
