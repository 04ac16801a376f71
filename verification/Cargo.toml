[package]
name = "tclock"
version = "0.1.0"
edition = "2021"
publish = false

[dependencies]
chrono = "0.4"
ratatui = "*"
crossterm = "*"
clap = { version = "*", features = ["derive"] }
color-eyre = "*"
tui-big-text = "*"
