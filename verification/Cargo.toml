[package]
name = "s3bench"
version = "0.1.0"
edition = "2021"
publish = false

[dependencies]
aws-config = "*"
aws-sdk-s3 = "*"
aws-sdk-s3-transfer-manager = "*"
clap = { version = "4", features = ["derive"] }
serde = { version = "1", features = ["derive"] }
serde_json = "1"
tokio = { version = "1", features = ["rt-multi-thread", "macros"] }
