[package]
name = "multipart_coordinator"
version = "0.1.0"
edition = "2021"
publish = false

[dependencies]
flate2 = "1"
anyhow = "1"
aws-config = "*"
aws-sdk-s3 = "*"
lambda_http = "*"
serde = { version = "1", features = ["derive"] }
serde_json = "1"
tokio = { version = "1", features = ["macros", "rt-multi-thread"] }
tower-http = { version = "*", features = ["cors"] }
