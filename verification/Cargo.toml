[package]
name = "slugs"
version = "0.1.0"
edition = "2021"
publish = false

[dependencies]
bevy = { version = "=0.17.3", default-features = false, features = ["bevy_sprite", "bevy_sprite_render", "bevy_ui", "bevy_text", "bevy_gizmos", "bevy_window", "bevy_render", "bevy_core_pipeline", "default_font", "std"] }
rand = "=0.10.3"
