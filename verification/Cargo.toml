[package]
name = "offscreen_renderer"
version = "0.1.0"
edition = "2021"
publish = false

[dependencies]
bytemuck = "1"
futures = "0.3"
image = { version = "0.24", default-features = false, features = ["png"] }
wgpu = "0.16"
