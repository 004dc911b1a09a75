[package]
name = "panorbit_camera_ext"
version = "0.1.0"
edition = "2021"
publish = false

[dependencies]
bevy = { version = "=0.17.3", default-features = false, features = ["std", "bevy_log", "bevy_gizmos", "bevy_mesh", "bevy_asset", "bevy_render", "bevy_camera", "bevy_window", "bevy_color"] }
bevy_panorbit_camera = { version = "=0.30.0", default-features = false }
