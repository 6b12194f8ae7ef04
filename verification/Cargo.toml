[package]
name = "object_lambda"
version = "0.1.0"
edition = "2021"
publish = false

[dependencies]
anyhow = "1"
aws-config = { version = "1", default-features = false, features = ["behavior-version-latest", "rt-tokio"] }
aws-sdk-s3 = { version = "1", default-features = false, features = ["rt-tokio"] }
aws-smithy-types = { version = "1", features = ["http-body-1-x"] }
aws_lambda_events = { version = "*", default-features = false, features = ["apigw", "s3"] }
base64 = "0.22"
bytes = "1"
clone_all = "*"
futures = "0.3"
futures-core = "0.3"
http-body = "1"
lambda_runtime = "*"
regex = "1"
reqwest = { version = "0.12", default-features = false, features = ["stream"] }
serde = { version = "1", features = ["derive"] }
serde_json = "1"
tokio = { version = "1", features = ["macros", "rt-multi-thread", "sync"] }
tracing = "0.1"
uuid = { version = "1", features = ["v4"] }
