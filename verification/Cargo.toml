[package]
name = "hylarana"
version = "0.1.0"
edition = "2021"
publish = false

[dependencies]
uuid = { version = "=1.29.0", features = ["v4"] }
anyhow = "=1.0.104"
thiserror = "=2.0.21"
log = "=0.4.35"
serde = { version = "=1.0.229", features = ["derive"] }
serde_json = "=1.0.154"
clap = { version = "=4.6.7", features = ["derive", "env"] }
dirs = "=7.0.0"
tokio = { version = "=1.54.1", features = ["full"] }
axum = "=0.8.9"
reqwest = { version = "=0.12.28", default-features = false }
parking_lot = "=0.12.5"
bytes = "=1.12.1"
fern = { version = "0.7", features = ["date-based"] }
futures-util = { version = "=0.3.34", features = ["sink"] }
tokio-tungstenite = "*"
