[package]
name = "spider_stats"
version = "0.1.0"
edition = "2021"
publish = false

[dependencies]
anyhow = "1"
humantime = "2"
once_cell = "1"
serde = { version = "1", features = ["derive"] }
serde_json = "1"
sysinfo = "0.29"
tokio = { version = "1", features = ["rt-multi-thread", "sync", "time"] }
tracing = "0.1"
