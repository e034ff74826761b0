[package]
name = "pare"
version = "0.1.0"
edition = "2021"
publish = false

[dependencies]
arboard = "3"
clap = { version = "4", features = ["derive"] }
crossterm = "0.27"
dirs = "5"
error-stack = "0.4"
ratatui = "0.26"
sqlite = "0.36"
