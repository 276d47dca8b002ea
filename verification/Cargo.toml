[package]
name = "mcp_agent"
version = "0.1.0"
edition = "2021"
publish = false

[dependencies]
anyhow = "=1.0.104"
axum = "=0.8.9"
openai-tools = "=3.1.0"
rmcp = { version = "=0.5.0", features = ["client", "server", "macros", "reqwest", "transport-io", "transport-child-process", "transport-sse-client", "transport-sse-server"] }
serde = { version = "=1.0.229", features = ["derive"] }
serde_json = "=1.0.154"
tokio = { version = "=1.54.1", features = ["full"] }
tokio-util = "=0.7.20"
tracing = "=0.1.44"
url = "=2.5.8"
