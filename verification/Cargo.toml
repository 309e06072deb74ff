[package]
name = "chip8"
version = "0.1.0"
edition = "2021"
publish = false

[dependencies]
rand = "0.8"
sdl2 = "*"
log = "0.4"
log4rs = "1"
log-panics = "2"
serde = { version = "1", features = ["derive"] }
