[package]
name = "paper_trail_db"
version = "0.1.0"
edition = "2021"
publish = false

[dependencies]
libsql = "=0.9.30"
serde = { version = "=1.0.229", features = ["derive"] }
serde_json = { version = "=1.0.154", features = ["preserve_order"] }
tokio = { version = "=1.54.1", features = ["sync"] }
