[package]
name = "deribit_mcp"
version = "0.1.0"
edition = "2021"
publish = false

[dependencies]
url = "=2.5.8"
anyhow = "=1.0.104"
thiserror = "=2.0.21"
serde = { version = "=1.0.229", features = ["derive"] }
serde_json = "=1.0.154"
schemars = "=1.2.3"
clap = { version = "=4.6.7", features = ["derive"] }
dotenvy = "=0.15.7"
tokio = { version = "=1.54.1", features = ["full"] }
tokio-util = "=0.7.20"
futures-core = "=0.3.34"
futures-util = "=0.3.34"
tracing = "=0.1.44"
axum = "=0.8.9"
rmcp = { version = "=1.6.0", features = ["server", "transport-io", "transport-streamable-http-server"] }
deribit-http = "=0.7.3"
deribit-websocket = "=0.3.4"
