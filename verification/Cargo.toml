[package]
name = "battle_city"
version = "0.1.0"
edition = "2021"
publish = false

[dependencies]
rand = "0.8"
bevy = { version = "0.17", default-features = false, features = ["bevy_sprite", "bevy_state", "bevy_asset", "bevy_core_pipeline", "bevy_render", "bmp"] }
bevy_ecs_ldtk = "0.13"
bevy_rapier2d = { version = "0.32", default-features = false, features = ["dim2"] }
