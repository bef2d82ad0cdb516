[package]
name = "neflo"
version = "0.1.0"
edition = "2021"
publish = false

[dependencies]
anyhow = "1"
chrono = { version = "0.4", features = ["serde"] }
clap = { version = "4", features = ["derive"] }
crossterm = "0.27"
dirs = "5"
fd-lock = "4"
humantime = "2"
ratatui = "0.26"
self_update = "*"
serde = { version = "1", features = ["derive"] }
serde_json = "1"
