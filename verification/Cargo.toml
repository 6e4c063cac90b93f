[package]
name = "nixacp_gateway"
version = "0.1.0"
edition = "2021"
publish = false

[dependencies]
serde = { version = "1", features = ["derive"] }
serde_json = "1"
uuid = { version = "1", features = ["v4"] }
tiktoken-rs = "*"
chrono = "0.4"
dashmap = "6"
anyhow = "1"
thiserror = "2"
async-trait = "0.1"
axum = "0.8"
bytes = "1"
figment = { version = "0.10", features = ["toml", "env"] }
futures-core = "0.3"
futures-util = "0.3"
memchr = "2"
num_cpus = "1"
reqwest = { version = "0.12", default-features = false, features = ["json"] }
tokio = { version = "1", features = ["full"] }
tokio-stream = "0.1"
tokio-util = "0.7"
tracing = "0.1"
tracing-subscriber = { version = "0.3", features = ["env-filter"] }
agent-client-protocol-schema = "*"
