[package]
name = "lyutmc"
version = "0.1.0"
edition = "2021"
publish = false

[dependencies]
bytemuck = "1"
bytemuck_derive = "1"
env_logger = "0.10"
image = { version = "0.24", default-features = false, features = ["jpeg", "png"] }
log = "0.4"
pollster = "0.3"
ultraviolet = { version = "0.9", features = ["bytemuck"] }
wgpu = "0.16"
winit = "0.28"
