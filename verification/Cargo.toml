[package]
name = "worm"
version = "0.1.0"
edition = "2021"
publish = false

[dependencies]
rand = "0.8"
ratatui = "*"
crossterm = "*"
color-eyre = "*"
