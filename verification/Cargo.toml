[package]
name = "procedural_gen"
version = "0.1.0"
edition = "2021"
publish = false

[dependencies]
cgmath = "*"
sdl2 = { version = "*", features = ["gfx"] }
