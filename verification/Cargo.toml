[package]
name = "rust_game_1"
version = "0.1.0"
edition = "2021"
publish = false

[dependencies]
bevy = { version = "0.15", default-features = false, features = ["bevy_asset", "bevy_core_pipeline", "bevy_render", "bevy_sprite", "bevy_state", "bevy_winit", "multi_threaded", "png", "x11"] }
bevy_pancam = "0.16"
rand = "0.9"
