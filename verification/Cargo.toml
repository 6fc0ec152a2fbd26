[package]
name = "rust_helper"
version = "0.1.0"
edition = "2021"
publish = false

[dependencies]
dirs = "5"
glob = "0.3"
log = "0.4"
serde = { version = "1", features = ["derive"] }
serde_json = "1"
tokio = { version = "1", features = ["rt", "rt-multi-thread"] }
toml = "0.8"
walkdir = "2"
