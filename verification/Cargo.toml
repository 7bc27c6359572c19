[package]
name = "demo-panel"
version = "0.1.0"
edition = "2021"
publish = false

[dependencies]
tokio = { version = "1", default-features = false, features = ["sync"] }
serde = { version = "1", features = ["derive"] }
serde_json = "1"
flume = "0.11"
libc = "0.2"
rand = "0.9"
chrono = "0.4"
