[package]
name = "pixel_fill"
version = "0.1.0"
edition = "2021"
publish = false

[dependencies]
bytemuck = "=1.25.2"
env_logger = "=0.10.2"
pollster = "=0.3.0"
spirv-std = "=0.9.0"
wgpu = { version = "=0.16.3", features = ["spirv"] }
winit = "=0.28.7"
