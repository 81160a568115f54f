[package]
name = "meta2env"
version = "0.1.0"
edition = "2021"
publish = false

[dependencies]
serde_json = "*"
serde = { version = "*", features = ["derive"] }
reqwest = { version = "*", default-features = false, features = ["blocking"] }
tokio = { version = "*", features = ["macros", "rt-multi-thread"] }
aws-config = "*"
aws-sdk-ecs = "*"
aws-sdk-ssm = "*"
