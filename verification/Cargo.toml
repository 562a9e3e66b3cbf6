[package]
name = "render_lifecycle"
version = "0.1.0"
edition = "2021"
publish = false

[dependencies]
env_logger = "*"
pollster = "*"
wgpu = "24"
winit = "0.30"
