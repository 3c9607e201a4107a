[package]
name = "halfblocks"
version = "0.1.0"
edition = "2021"
publish = false

[dependencies]
anyhow = "1.0.76"
crossterm = "0.27.0"
lazy_static = "1.4.0"
rand = "0.8.5"
ratatui = "0.25.0"
