[package]
name = "crossterm_input"
version = "0.1.0"
edition = "2021"
publish = false

[dependencies]
crossterm_winapi = "0.5"
lazy_static = "1"
