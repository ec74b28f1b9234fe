[package]
name = "fractal_wgpu"
version = "0.1.0"
edition = "2021"
publish = false

[dependencies]
anyhow = "*"
bytemuck = { version = "*", features = ["derive"] }
env_logger = "*"
log = "*"
pollster = "*"
wgpu = "*"
winit = "*"
