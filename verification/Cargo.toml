[package]
name = "poker_planning"
version = "0.1.0"
edition = "2021"
publish = false

[dependencies]
axum = "0.8"
crossterm = "*"
futures = "0.3"
rand = "0.9"
ratatui = "*"
serde = { version = "1", features = ["derive"] }
serde_json = "1"
tokio = { version = "1", features = ["full"] }
tokio-stream = { version = "0.1", features = ["sync"] }
tokio-util = { version = "0.7", features = ["codec"] }
tower-http = { version = "0.6", features = ["cors"] }
tui-input = "*"
uuid = { version = "1", features = ["v4", "serde"] }
