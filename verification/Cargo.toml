[package]
name = "rotex_wgpu"
version = "0.1.0"
edition = "2021"
publish = false

[dependencies]
wgpu = { version = "*", features = ["spirv"] }
