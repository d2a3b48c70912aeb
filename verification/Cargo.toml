[package]
name = "asteroids"
version = "0.1.0"
edition = "2021"
publish = false

[dependencies]
zip = { version = "*", default-features = false, features = ["deflate"] }
mos6502 = "*"
wgpu = "*"
winit = "*"
pollster = "*"
bytemuck = { version = "*", features = ["derive"] }
