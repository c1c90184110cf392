[package]
name = "rust_4k"
version = "0.1.0"
edition = "2021"
publish = false

[dependencies]
yaml-rust = "0.4"
bevy = { version = "0.5", default-features = false, features = ["bevy_audio", "bevy_winit", "bevy_wgpu", "render", "png", "mp3", "x11"] }
bevy_asset = "0.5"
