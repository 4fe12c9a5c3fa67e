[package]
name = "chip8"
version = "0.1.0"
edition = "2021"
publish = false

[dependencies]
anyhow = "1"
pixels = "*"
rand = "0.9"
winit = "0.29"
