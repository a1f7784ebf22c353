[package]
name = "search_rs"
version = "0.1.0"
edition = "2021"
publish = false

[dependencies]
git2 = { version = "*", default-features = false }
regex = "*"
clap = { version = "*", features = ["derive"] }
colored = "*"
crossterm = "*"
env_logger = "*"
log = "*"
chrono = "*"
ratatui = "*"
syntect = { version = "*", default-features = false, features = ["default-fancy"] }
