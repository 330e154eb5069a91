[package]
name = "lajjzy"
version = "0.1.0"
edition = "2021"
publish = false

[dependencies]
nucleo-matcher = "*"
ratatui = "*"
crossterm = "*"
tui-textarea = "*"
clap = { version = "*", features = ["derive"] }
serde = { version = "*", features = ["derive"] }
serde_json = "*"
tempfile = "*"
anyhow = "*"
