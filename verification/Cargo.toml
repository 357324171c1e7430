[package]
name = "nats_messaging"
version = "0.1.0"
edition = "2021"
publish = false

[dependencies]
async-nats = "*"
base64 = "0.13"
bytes = "1"
futures = "0.3"
serde_json = "1"
tokio = { version = "1", features = ["full"] }
wascap = "*"
