[package]
name = "tui_reader"
version = "0.1.0"
edition = "2021"
publish = false

[dependencies]
rand = "0.8"
crossterm = "0.27"
ratatui = "0.26"
color-eyre = "0.6"
