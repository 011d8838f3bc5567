[package]
name = "nes_core"
version = "0.1.0"
edition = "2021"
publish = false

[dependencies]
bytes = "*"
log = "*"
env_logger = "*"
sdl2 = "*"
