[package]
name = "cpu_broadcast"
version = "0.1.0"
edition = "2021"
publish = false

[dependencies]
axum = { version = "0.8", features = ["ws"] }
serde_json = "1"
sysinfo = "*"
tokio = { version = "1", features = ["full"] }
