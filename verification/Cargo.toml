[package]
name = "tanks"
version = "0.8.0"
edition = "2021"
publish = false

[dependencies]
bevy = { version = "0.15", default-features = false, features = ["bevy_asset", "bevy_color", "bevy_core_pipeline", "bevy_gizmos", "bevy_pbr", "bevy_render", "bevy_state", "bevy_text", "bevy_ui", "bevy_window", "default_font", "multi_threaded"] }
web-sys = { version = "0.3", features = ["Window", "Document", "Element"] }
