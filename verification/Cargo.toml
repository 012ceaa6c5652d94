[package]
name = "owner_lag_repro"
version = "0.1.0"
edition = "2021"
publish = false

[dependencies]
bevy = { version = "=0.17.3", default-features = false, features = ["std", "bevy_window", "bevy_winit", "bevy_camera", "x11"] }
bevy_egui = { version = "=0.37.1", default-features = false }
egui = "=0.32.3"
