[package]
name = "keybinds"
version = "0.1.0"
edition = "2021"
publish = false

[dependencies]
crossterm = "=0.29.0"
ratatui = "=0.30.2"
shellexpand = "=3.1.2"

[dev-dependencies]
dirs = "=6.0.0"
