[package]
name = "texture_mapping"
version = "0.1.0"
edition = "2021"
publish = false

[dependencies]
ash = "0.24"
winit = "0.18"
cgmath = "0.16"
memoffset = "0.2"
num = "0.2"
