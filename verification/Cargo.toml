[package]
name = "agent_bridge"
version = "0.1.0"
edition = "2021"
publish = false

[dependencies]
neon = { version = "1", features = ["futures"] }
serde = { version = "1", features = ["derive"] }
serde_json = "1"
tracing = "0.1"
