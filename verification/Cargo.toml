[package]
name = "vtcode_acp"
version = "0.1.0"
edition = "2021"
publish = false

[dependencies]
serde_json = { version = "=1.0.154", features = ["preserve_order"] }
uuid = { version = "=1.29.0", features = ["v4"] }
serde = { version = "=1.0.229", features = ["derive"] }
anyhow = "=1.0.104"
tokio = { version = "=1.54.1", features = ["io-util", "rt", "macros", "sync", "time", "process"] }
tracing = "=0.1.44"
