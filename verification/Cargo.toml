[package]
name = "gameboy"
version = "0.1.0"
edition = "2021"
publish = false

[dependencies]
anyhow = "1"
clap = "2"
sdl2 = "0.35"
