[package]
name = "chip8"
version = "0.1.0"
edition = "2021"

[dependencies]
clap = { version = "3.2", features = ["derive"] }
sdl2 = "0.35"
