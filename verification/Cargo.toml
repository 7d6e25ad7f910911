[package]
name = "picrust"
version = "0.1.0"
edition = "2021"
publish = false

[dependencies]
anyhow = "1"
async-stream = "0.3"
async-trait = "0.1"
base64 = "0.22"
chrono = "0.4"
crossterm = "0.27"
futures = "0.3"
glob = "0.3"
ratatui = "0.26"
regex = "1"
reqwest = { version = "0.12", default-features = false, features = ["stream", "json"] }
serde = { version = "1", features = ["derive"] }
serde_json = "1"
termimad = "*"
tokio = { version = "1", features = ["full"] }
tokio-util = { version = "0.7", features = ["io"] }
tracing = "0.1"
tracing-appender = "0.2"
tracing-subscriber = { version = "0.3", features = ["env-filter"] }
uuid = { version = "1", features = ["v4"] }
