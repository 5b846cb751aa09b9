[package]
name = "profile_core"
version = "0.1.0"
edition = "2021"
publish = false

[dependencies]
serde_json = "*"
chrono = "*"
serde = { version = "*", features = ["derive"] }
tokio = { version = "*", features = ["macros", "rt"] }
tracing = "*"
lambda_runtime = "*"
lambda_http = "*"
aws_lambda_events = "*"
aws-config = "*"
aws-sdk-dynamodb = "*"
aws-sdk-cognitoidentityprovider = "*"
