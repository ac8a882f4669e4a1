[package]
name = "egone"
version = "0.1.0"
edition = "2021"
publish = false

[dependencies]
bytemuck = { version = "1", features = ["derive"] }
half = "2"
image = { version = "0.25", default-features = false, features = ["hdr"] }
sysinfo = { version = "*", default-features = false, features = ["system"] }
pollster = "*"
wgpu = "*"
winit = "*"
egui = "*"
egui-wgpu = { version = "*", default-features = false }
egui-winit = { version = "*", default-features = false }
