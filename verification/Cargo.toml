[package]
name = "enu"
version = "0.1.0"
edition = "2021"
publish = false

[dependencies]
bytemuck = "1"
ffmpeg-next = "7"
iced = { version = "0.13", default-features = false, features = ["wgpu"] }
iced_wgpu = "0.13"
iced_winit = "0.13"
image = { version = "0.24", default-features = false, features = ["png"] }
pollster = "0.3"
winit = "0.30"
