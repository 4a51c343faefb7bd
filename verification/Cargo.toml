[package]
name = "win_sdf_ui"
version = "0.1.0"
edition = "2021"
publish = false

[dependencies]
bevy = { version = "=0.19.1", default-features = false, features = ["bevy_asset", "bevy_core_pipeline", "bevy_render", "bevy_sprite", "bevy_sprite_render", "bevy_ui", "bevy_ui_render", "bevy_window", "png"] }
