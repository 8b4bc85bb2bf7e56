[package]
name = "drive_deposits"
version = "0.1.0"
edition = "2021"
publish = false

[dependencies]
rust_decimal = { version = "1", features = ["maths"] }
chrono = "0.4"
chrono-tz = "*"
uuid = { version = "1", features = ["v4"] }
heck = "*"
serde = { version = "1", features = ["derive"] }
serde_json = "1"
thiserror = "1"
anyhow = "1"
clap = { version = "4", features = ["derive"] }
tokio = { version = "1", features = ["full"] }
tracing = "0.1"
tracing-subscriber = { version = "0.3", features = ["env-filter"] }
validator = { version = "*", features = ["derive"] }
aws-config = "1"
aws-sdk-eventbridge = "1"
aws-sdk-dynamodb = "1"
aws_lambda_events = "*"
lambda_runtime = "*"
lambda_http = "*"
axum = "0.7"
