[package]
name = "sand_castle_core"
version = "0.1.0"
edition = "2021"
publish = false

[dependencies]
glam = { version = "=0.29.3", features = ["bytemuck"] }
bytemuck = "=1.25.2"
uuid = { version = "=1.27.0", features = ["v4"] }
image = "=0.25.10"
wgpu = "=22.1.0"
futures = "=0.3.34"
