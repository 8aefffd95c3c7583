[package]
name = "rag"
version = "0.1.0"
edition = "2021"
publish = false

[dependencies]
serde_json = "1"
serde = { version = "1", features = ["derive"] }
reqwest = { version = "*", default-features = false, features = ["blocking", "json"] }
mcp-client-rust = "*"
tokio = { version = "1", features = ["rt", "rt-multi-thread", "macros", "sync", "time"] }
walkdir = "2"
dotenvy = "*"
crossterm = { version = "*", features = ["event-stream"] }
ratatui = "*"
futures = "*"
