[package]
name = "hexachess"
version = "0.1.0"
edition = "2021"
publish = false

[dependencies]
bevy = { version = "0.15", default-features = false, features = ["bevy_asset", "bevy_color", "bevy_core_pipeline", "bevy_gizmos", "bevy_render", "bevy_sprite", "bevy_text", "bevy_window"] }
bitflags = { version = "2", features = ["serde"] }
hexx = "0.20"
serde = { version = "1", features = ["derive"] }
