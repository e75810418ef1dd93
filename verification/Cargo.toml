[package]
name = "meeting_session"
version = "0.1.0"
edition = "2021"
publish = false

[dependencies]
base64 = "*"
hmac = "*"
md5 = "*"
serde_json = "*"
sha1 = "*"
uuid = { version = "*", features = ["v4"] }
anyhow = "*"
chrono = "*"
dirs = "*"
futures-util = "*"
reqwest = { version = "*", default-features = false, features = ["json"] }
serde = { version = "*", features = ["derive"] }
tokio = { version = "*", features = ["full"] }
tokio-tungstenite = "*"
