[package]
name = "chip8"
version = "0.1.0"
edition = "2021"
publish = false

[dependencies]
bitvec = "1"
env_logger = "*"
futures = "0.3"
log = "0.4"
sdl2 = "0.35"
smol = "*"
