[package]
name = "mailparser"
version = "0.1.0"
edition = "2021"
publish = false

[dependencies]
mail-parser = "*"
scraper = "*"
serde = { version = "*", features = ["derive"] }
serde_json = "*"
aws-config = "*"
aws-sdk-s3 = "*"
aws-sdk-dynamodb = "*"
aws-sdk-sns = "*"
lambda_runtime = "*"
tokio = { version = "*", features = ["macros", "rt-multi-thread"] }
