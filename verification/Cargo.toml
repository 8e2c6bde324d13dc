[package]
name = "codex_desktop"
version = "0.1.0"
edition = "2021"
publish = false

[dependencies]
serde_json = "*"
serde = { version = "*", features = ["derive"] }
base64 = "*"
uuid = { version = "*", features = ["v4"] }
chrono = "*"
tokio = { version = "*", features = ["full"] }
rusqlite = { version = "*", features = ["bundled"] }
parking_lot = "*"
dirs = "*"
which = "*"
walkdir = "*"
toml = "*"
