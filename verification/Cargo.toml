[package]
name = "fire_effect"
version = "0.1.0"
edition = "2021"
publish = false

[dependencies]
rand = "*"
wgpu = "*"
bytemuck = { version = "*", features = ["derive"] }
