[package]
name = "rust_nes"
version = "0.1.0"
edition = "2021"

[dependencies]
rand = "0.7"
sdl2 = "0.34"
