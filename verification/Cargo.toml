[package]
name = "midiman"
version = "0.1.0"
edition = "2021"
publish = false

[dependencies]
serde = { version = "1", features = ["derive"] }
toml = "*"
libc = "0.2"
crossterm = "*"
ratatui = "*"
hidapi = "*"
midir = "*"
