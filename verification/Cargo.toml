[package]
name = "notion_zh"
version = "0.1.0"
edition = "2021"
publish = false

[dependencies]
directories = "5"
glob = "0.3"
serde = { version = "1", features = ["derive"] }
serde_json = "1"
tracing = "0.1"
tracing-subscriber = "0.3"
