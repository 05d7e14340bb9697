[package]
name = "moli"
version = "0.1.0"
edition = "2021"
publish = false

[dependencies]
chrono = "*"
crossterm = "*"
dirs = "*"
ratatui = "*"
ron = "*"
serde = { version = "*", features = ["derive"] }
