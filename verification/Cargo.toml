[package]
name = "psychophysics"
version = "0.1.0"
edition = "2021"
publish = false

[dependencies]
async-broadcast = "*"
async-channel = "*"
smol = "*"
winit = "0.28"
serialport = { version = "*", default-features = false }
async-lock = "*"
atomic_float = "*"
log = "*"
simple_logger = "*"
