[package]
name = "sunshine_core"
version = "0.1.0"
edition = "2021"
publish = false

[dependencies]
ropey = "1.6"
anyhow = "1"
crossterm = "0.28"
ratatui = "0.29"
env_logger = "0.11"
ignore = "0.4"
