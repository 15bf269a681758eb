[package]
name = "termbf"
version = "0.1.0"
edition = "2021"
publish = false

[dependencies]
ratatui = "*"
crossterm = "*"
tui-input = "*"
clap = { version = "*", features = ["derive"] }
itsuki = "*"
