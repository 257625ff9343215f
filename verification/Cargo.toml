[package]
name = "chromacore"
version = "0.1.0"
edition = "2021"
publish = false

[dependencies]
image = { version = "0.25", default-features = false, features = ["png"] }
wgpu = { version = "*", default-features = false, features = ["wgsl"] }
bytemuck = { version = "*", features = ["derive"] }
futures-intrusive = "*"
pollster = "*"
