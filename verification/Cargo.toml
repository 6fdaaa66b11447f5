[package]
name = "poem_api"
version = "0.1.0"
edition = "2021"
publish = false

[dependencies]
dotenvy = "*"
hmac = "0.12"
jwt = "0.16"
poem = "3"
poem-openapi = { version = "5", features = ["swagger-ui"] }
serde = { version = "1", features = ["derive"] }
serde_json = "1"
sha2 = "0.10"
shuttle-poem = "*"
shuttle-runtime = "*"
tokio = { version = "1", features = ["fs", "sync"] }
tracing-subscriber = "0.3"
validator = "0.20"
