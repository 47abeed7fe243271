[package]
name = "render_harness"
version = "0.1.0"
edition = "2021"
publish = false

[dependencies]
anyhow = "1"
bytemuck = { version = "1", features = ["derive"] }
futures = "0.3"
glam = "0.22"
wgpu = "0.14"
winit = "0.27"
