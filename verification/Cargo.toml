[package]
name = "mcp_multi_tool"
version = "0.1.0"
edition = "2021"
publish = false

[dependencies]
anyhow = "=1.0.104"
axum = "=0.8.9"
axum-server = { version = "=0.8.0", features = ["tls-rustls"] }
clap = { version = "=4.6.7", features = ["derive"] }
dotenvy = "=0.15.7"
futures = "=0.3.34"
http = "=1.5.0"
once_cell = "=1.21.4"
parking_lot = "=0.12.5"
prometheus = "=0.14.0"
reqwest = { version = "0.12", default-features = false }
rmcp = { version = "=0.8.5", features = ["client", "server", "macros", "schemars", "transport-io", "transport-child-process", "transport-sse-client-reqwest", "transport-streamable-http-client-reqwest"] }
rusqlite = { version = "=0.41.0", features = ["bundled"] }
serde = { version = "=1.0.229", features = ["derive"] }
serde_json = "=1.0.154"
shell-words = "=1.1.1"
time = { version = "=0.3.55", features = ["formatting"] }
tokio = { version = "=1.54.1", features = ["full"] }
tokio-util = "=0.7.20"
toml = "=1.1.8"
tracing = "=0.1.44"
tracing-subscriber = { version = "=0.3.23", features = ["env-filter", "fmt"] }
uuid = { version = "=1.29.0", features = ["v4", "serde"] }
