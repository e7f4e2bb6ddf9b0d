[package]
name = "wgpu_renderer"
version = "0.1.0"
edition = "2021"
publish = false

[dependencies]
bytemuck = { version = "*", features = ["derive"] }
glam = "*"
glyphon = "*"
log = "*"
thiserror = "*"
wgpu = "*"
winit = "*"
