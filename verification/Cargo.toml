[package]
name = "wiper"
version = "0.1.0"
edition = "2021"
publish = false

[dependencies]
regex = "=1.13.1"
tui-textarea = { version = "0.2.4", default-features = false, features = ["ratatui-crossterm"] }
ratatui = "0.23.0"
crossterm = "0.27.0"
walkdir = "=2.5.0"
clap = { version = "=4.6.7", features = ["derive"] }
eyre = "=0.6.14"
log = "=0.4.34"
