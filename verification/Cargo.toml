[package]
name = "nivalis"
version = "0.1.0"
edition = "2021"
publish = false

[dependencies]
rand = "=0.9.5"
uuid = { version = "=1.29.0", features = ["v4"] }
wgpu = "=25.0.2"
winit = "=0.30.13"
glyphon = "=0.9.0"
imgui = "=0.12.0"
imgui-wgpu = "0.25"
imgui-winit-support = "=0.13.0"
image = { version = "=0.25.10", default-features = false, features = ["png", "webp"] }
gltf = "=1.4.1"
pollster = "=0.4.0"
env_logger = "0.11"
log = "0.4"
