[package]
name = "doc_browser"
version = "0.1.0"
edition = "2021"
publish = false

[dependencies]
anyhow = "1"
crossterm = "*"
ratatui = "*"
reqwest = { version = "*", default-features = false, features = ["json", "multipart"] }
serde = { version = "*", features = ["derive"] }
tokio = { version = "*", features = ["rt-multi-thread", "macros", "sync", "fs", "io-util", "time"] }
