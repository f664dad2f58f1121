[package]
name = "pix_engine"
version = "0.1.0"
edition = "2021"
publish = false

[dependencies]
png = "0.17"
lru = "*"
rand = "0.8"
winit = "0.30"
webbrowser = "*"
