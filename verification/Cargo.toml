[package]
name = "psx"
version = "0.1.0"
edition = "2021"
publish = false

[dependencies]
env_logger = "0.8"
glium = "0.29"
imgui = "0.7"
imgui-glium-renderer = "0.7"
imgui-winit-support = "0.7"
log = "0.4"
serde = { version = "1", features = ["derive"] }
serde_json = "1"
