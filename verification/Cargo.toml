[package]
name = "bcradio"
version = "0.1.0"
edition = "2021"
publish = false

[dependencies]
anyhow = "*"
async-channel = "*"
clap = { version = "*", features = ["derive"] }
crossterm = "*"
futures = "*"
inquire = "*"
mp3-duration = "*"
ratatui = "*"
reqwest = { version = "*", default-features = false }
rodio = "*"
rust-fuzzy-search = "*"
serde = { version = "*", features = ["derive"] }
serde_json = "*"
thiserror = "*"
tokio = { version = "*", features = ["rt-multi-thread", "macros", "time", "sync"] }
tui-textarea = "*"
