[package]
name = "zunda_shower"
version = "0.1.0"
edition = "2021"
publish = false

[dependencies]
rand = "=0.8.8"
serde = { version = "=1.0.229", features = ["derive"] }
serde_json = "=1.0.154"
bevy = { version = "=0.10.1", default-features = false, features = ["bevy_asset", "bevy_core_pipeline", "bevy_render", "bevy_sprite", "bevy_text", "bevy_ui", "serialize"] }
bevy_rapier2d = { version = "=0.21.0", default-features = false, features = ["dim2", "async-collider"] }
bevy_prototype_lyon = "=0.8.0"
bevy-inspector-egui = { version = "=0.18.3", default-features = false }
