[package]
name = "layout"
version = "0.1.0"
edition = "2021"
publish = false

[dependencies]
serde = { version = "1", features = ["derive"] }
serde_yaml = "0.9"
chrono = "0.4"
crossterm = "0.28"
ratatui = "0.29"
