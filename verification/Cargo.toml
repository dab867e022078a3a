[package]
name = "galileo"
version = "0.1.0"
edition = "2021"
publish = false

[dependencies]
wgpu = "=0.19.4"
winit = "=0.30.13"
bytemuck = { version = "=1.25.2", features = ["derive"] }
log = "=0.4.34"
pollster = "0.3"
