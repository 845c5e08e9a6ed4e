[package]
name = "moq_prototype"
version = "0.1.0"
edition = "2021"
publish = false

[dependencies]
uuid = { version = "=1.27.0", features = ["v4"] }
moq-lite = "=0.17.0"
web-transport-quinn = "=0.11.12"
url = "*"
tokio = { version = "=1.53.2", features = ["macros", "rt-multi-thread", "time", "sync"] }
anyhow = "*"
futures = "*"
async-stream = "*"
tracing = "*"
tracing-subscriber = "*"
rand = "=0.10.3"
