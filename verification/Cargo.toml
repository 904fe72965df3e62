[package]
name = "agent_framework"
version = "0.1.0"
edition = "2021"
publish = false

[dependencies]
dashmap = "*"
regex = "1"
chrono = "0.4"
serde = { version = "1", features = ["derive"] }
serde_json = "1"
uuid = { version = "1", features = ["v4"] }
tokio = { version = "1", features = ["full"] }
async-trait = "0.1"
futures = "0.3"
thiserror = "*"
tracing = "0.1"
tracing-subscriber = { version = "0.3", features = ["env-filter", "json"] }
reqwest = { version = "*", default-features = false, features = ["json", "stream"] }
eventsource-stream = "0.2"
backoff = { version = "0.4", features = ["tokio"] }
config = "*"
