[package]
name = "gomp"
version = "0.1.0"
edition = "2021"
publish = false

[dependencies]
bytemuck = "1"
futures = "0.3"
wgpu = "0.11"
winit = "0.26"
