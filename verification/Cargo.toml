[package]
name = "webshot"
version = "0.1.0"
edition = "2021"
publish = false

[dependencies]
biscuit-auth = "6"
url = "2"
axum = "0.8"
tokio = { version = "1", features = ["full"] }
chromiumoxide = "*"
futures = "0.3"
http = "1"
serde = { version = "1", features = ["derive"] }
serde_json = "1"
base64 = "0.22"
tracing = "0.1"
tracing-subscriber = { version = "0.3", features = ["env-filter"] }
tracing-journald = "*"
