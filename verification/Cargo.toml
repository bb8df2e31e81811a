[package]
name = "brick_wall"
version = "0.1.0"
edition = "2021"
publish = false

[dependencies]
glam = "0.23"
bevy = { version = "0.10", default-features = false, features = ["bevy_asset", "bevy_render", "bevy_pbr", "bevy_core_pipeline", "bevy_gltf"] }
bevy_mod_picking = "0.12"
