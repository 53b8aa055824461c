[package]
name = "ranim"
version = "0.1.0"
edition = "2021"
publish = false

[dependencies]
wgpu = "25"
bytemuck = "1"
regex = "1"
serde = { version = "1", features = ["derive"] }
log = "0.4"
pollster = "0.4"
async-channel = "2"
