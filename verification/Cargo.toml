[package]
name = "fractal_clock"
version = "0.1.0"
edition = "2021"
publish = false

[dependencies]
time = { version = "0.3", features = ["local-offset"] }
wgpu = "0.12"
winit = "0.26"
pollster = "0.2"
raw-window-handle = "0.4"
bytemuck = { version = "1", features = ["derive"] }
libc = "0.2"
