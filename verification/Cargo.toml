[package]
name = "render_core"
version = "0.1.0"
edition = "2021"
publish = false

[dependencies]
bytemuck = "1"
bytemuck_derive = "1"
futures = "0.3"
glam = { version = "*", features = ["bytemuck"] }
wgpu = "0.16"
winit = "0.28"
