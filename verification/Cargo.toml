[package]
name = "selab"
version = "0.1.0"
edition = "2021"
publish = false

[dependencies]
anyhow = "1"
chrono = "0.4"
clap = { version = "4", features = ["derive"] }
crossterm = "0.27"
dirs = "5"
ratatui = "0.23"
regex = "1"
serde = { version = "1", features = ["derive"] }
serde_json = "1"
