[package]
name = "goose_mcp"
version = "0.1.0"
edition = "2021"
publish = false

[dependencies]
reqwest = { version = "=0.13.5", features = ["json"] }
rmcp = "=3.7.0"
serde = { version = "=1.0.229", features = ["derive"] }
serde_json = "=1.0.154"
