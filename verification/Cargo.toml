[package]
name = "stunt"
version = "0.1.0"
edition = "2021"
publish = false

[dependencies]
uuid = { version = "=1.29.0", features = ["v4", "serde"] }
chrono = "=0.4.45"
tokio = { version = "=1.54.1", features = ["full"] }
tokio-util = "=0.7.20"
crossterm = { version = "=0.29.0", features = ["event-stream"] }
ratatui = "=0.30.2"
clap = { version = "=4.6.7", features = ["derive"] }
anyhow = "=1.0.104"
dirs = "=7.0.0"
serde = { version = "=1.0.229", features = ["derive"] }
serde_json = "=1.0.154"
toml = "=1.1.8"
futures = "=0.3.34"
libc = "=0.2.191"
rand = "=0.10.3"
