[package]
name = "static_mesh"
version = "0.1.0"
edition = "2021"
publish = false

[dependencies]
bytemuck = "=1.25.2"
pollster = "=0.3.0"
wgpu = { version = "=0.19.4", default-features = false }
winit = { version = "0.30", default-features = false, features = ["rwh_06", "x11"] }
