[package]
name = "leader_lambda"
version = "0.1.0"
edition = "2021"
publish = false

[dependencies]
lambda_http = "*"
tokio = { version = "1", features = ["macros", "rt-multi-thread"] }
