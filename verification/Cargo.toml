[package]
name = "pitch_trigger"
version = "0.1.0"
edition = "2021"
publish = false

[dependencies]
pitch-detection = "*"
cpal = "*"
enigo = "*"
winit = "*"
pixels = "*"
