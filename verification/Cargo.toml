[package]
name = "isopod"
version = "0.1.0"
edition = "2021"
publish = false

[dependencies]
naga = { version = "=0.19.2", features = ["glsl-in", "spv-out"] }
ash = "=0.38.0"
bytemuck = "=1.25.2"
