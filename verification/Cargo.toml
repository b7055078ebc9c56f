[package]
name = "manual_texture"
version = "0.1.0"
edition = "2021"
publish = false

[dependencies]
wgpu = "23"
ash = "0.38"
pollster = "0.3"
