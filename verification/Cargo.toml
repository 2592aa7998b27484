[package]
name = "raytracing"
version = "0.1.0"
edition = "2021"
publish = false

[dependencies]
cgmath = "=0.18.0"
eframe = { version = "=0.22.0", default-features = false, features = ["default_fonts", "wgpu"] }
egui-wgpu = "=0.22.0"
wgpu = "=0.16.3"

[dev-dependencies]
encase = { version = "=0.6.1", features = ["cgmath"] }
