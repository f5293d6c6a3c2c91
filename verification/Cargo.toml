[package]
name = "host_redirect"
version = "0.1.0"
edition = "2021"
publish = false

[dependencies]
serde_json = "1"
aws-config = "0.6"
aws-sdk-dynamodb = "0.6"
lambda_http = "0.5"
tokio = { version = "1", features = ["macros", "rt-multi-thread"] }
