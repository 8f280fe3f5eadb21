[package]
name = "codex_bridge"
version = "0.1.0"
edition = "2021"
publish = false

[dependencies]
tokio = { version = "1", features = ["sync"] }
uuid = { version = "1", features = ["v4"] }
regex-lite = "0.1"
unicode-width = "0.2"
chrono = "0.4"
serde = { version = "1", features = ["derive"] }
serde_json = "1"
ratatui = { version = "*", default-features = false }
tracing = "0.1"
