[package]
name = "stream_activity"
version = "0.1.0"
edition = "2021"
publish = false

[dependencies]
aws-config = "*"
aws-sdk-cloudwatchlogs = "*"
aws-sdk-cloudwatch = "*"
clap = { version = "*", features = ["derive"] }
tokio = { version = "*", features = ["rt", "macros"] }
tracing-subscriber = "*"
