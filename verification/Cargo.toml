[package]
name = "planet_generation"
version = "0.1.0"
edition = "2021"
publish = false

[dependencies]
noise = "0.9"
bevy = { version = "0.16", default-features = false, features = ["bevy_asset", "bevy_color", "bevy_core_pipeline", "bevy_pbr", "bevy_render", "std"] }
