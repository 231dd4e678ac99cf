[package]
name = "orbitcam"
version = "0.1.0"
edition = "2021"
publish = false

[dependencies]
avian3d = { version = "=0.2.1", default-features = false, features = ["3d", "f32", "parry-f32", "default-collider"] }
bevy = { version = "=0.15.3", default-features = false, features = ["bevy_render", "bevy_core_pipeline", "bevy_window"] }
