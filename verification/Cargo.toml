[package]
name = "qqbot_core"
version = "0.1.0"
edition = "2021"
publish = false

[dependencies]
base64 = "*"
hostport = "*"
image = { version = "*", default-features = false, features = ["png"] }
onebot_v11 = "*"
anyhow = "*"
async-broadcast = "*"
futures-util = "*"
serde_json = "*"
secrecy = "*"
tracing = "*"
tokio = { version = "*", features = ["rt", "sync", "macros"] }
