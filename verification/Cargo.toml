[package]
name = "space_chase"
version = "0.1.0"
edition = "2021"
publish = false

[dependencies]
bevy = { version = "0.16", default-features = false, features = ["std", "async_executor", "bevy_asset", "bevy_color", "bevy_core_pipeline", "bevy_render", "bevy_sprite", "bevy_window"] }
bevy_rapier2d = { version = "0.30", default-features = false, features = ["dim2"] }
