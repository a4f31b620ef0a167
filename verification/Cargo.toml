[package]
name = "pong"
version = "0.1.0"
edition = "2021"
publish = false

[dependencies]
rand = "0.9"
sdl2 = { version = "*", features = ["image", "ttf"] }
soloud = "*"
