[package]
name = "mcp_time"
version = "0.1.0"
edition = "2021"
publish = false

[dependencies]
jiff = "*"
anyhow = "*"
rmcp = { version = "*", features = ["server", "transport-io", "macros"] }
schemars = "*"
serde = { version = "*", features = ["derive"] }
serde_json = "*"
tokio = { version = "*", features = ["macros", "rt-multi-thread"] }
tracing-subscriber = { version = "*", features = ["env-filter"] }
