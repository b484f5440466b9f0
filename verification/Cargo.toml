[package]
name = "gstreamer-mcp"
version = "0.1.0"
edition = "2021"
rust-version = "1.95"
publish = false

[dependencies]
anyhow = "1"
chrono = { version = "=0.4.45", features = ["serde"] }
clap = { version = "4", features = ["derive", "env"] }
futures = "0.3"
gstreamer = "0.23"
once_cell = "1"
parking_lot = "0.12"
rmcp = { version = "0.3", features = ["server", "transport-io"] }
rustyline = "*"
serde = { version = "1", features = ["derive"] }
serde_json = "1"
thiserror = "*"
tokio = { version = "1", features = ["full"] }
toml = "*"
tracing = "0.1"
tracing-subscriber = { version = "0.3", features = ["env-filter"] }
uuid = { version = "=1.29.0", features = ["v4"] }
