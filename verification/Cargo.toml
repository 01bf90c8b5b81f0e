[package]
name = "realtime-rs"
version = "0.1.0"
edition = "2021"
publish = false

[dependencies]
futures-util = "0.3"
serde = { version = "1", features = ["derive"] }
serde_json = "1"
tokio = { version = "1", features = ["rt-multi-thread", "sync", "time", "macros", "net"] }
tokio-stream = "0.1"
tokio-tungstenite = "0.20"
tungstenite = "0.20"
uuid = { version = "1", features = ["v4"] }
