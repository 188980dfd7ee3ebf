[package]
name = "loading_gate"
version = "0.1.0"
edition = "2021"
publish = false

[dependencies]
bevy = { version = "=0.8.1", default-features = false, features = ["animation", "bevy_asset", "bevy_scene", "bevy_winit", "render", "png", "x11"] }
bevy-inspector-egui = { version = "=0.12.1", default-features = false }
bevy_kira_audio = { version = "=0.12.0", default-features = false }
