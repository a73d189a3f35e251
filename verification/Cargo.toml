[package]
name = "api_fn"
version = "0.1.0"
edition = "2021"
publish = false

[dependencies]
anyhow = "1"
aws-config = "0.55"
aws-sdk-dynamodb = "0.28"
aws_lambda_events = { version = "0.10", default-features = false, features = ["apigw"] }
http = "0.2"
lambda_runtime = "0.8"
serde = { version = "1", features = ["derive"] }
serde_dynamo = { version = "4", features = ["aws-sdk-dynamodb+0_28"] }
serde_json = "1"
tokio = { version = "1", features = ["macros", "rt-multi-thread"] }
tracing = "0.1"
tracing-subscriber = { version = "0.3", default-features = false, features = ["fmt"] }
uuid = { version = "1", features = ["v4"] }
