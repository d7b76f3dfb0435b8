[package]
name = "event_sourcing"
version = "0.1.0"
edition = "2021"
publish = false

[dependencies]
uuid = { version = "1", features = ["v4", "serde"] }
byte-unit = { version = "5", features = ["serde"] }
mime = "0.3"
chrono = "0.4"
serde = { version = "1", features = ["derive"] }
serde_json = "1"
tokio = { version = "1", features = ["full"] }
tokio-stream = { version = "0.1", features = ["sync"] }
tokio-util = "0.7"
async-trait = "0.1"
async-channel = "2"
futures-util = "0.3"
tracing = "0.1"
snafu = "0.8"
