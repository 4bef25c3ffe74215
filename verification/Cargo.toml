[package]
name = "car_dqn"
version = "0.1.0"
edition = "2021"
publish = false

[dependencies]
rand = "=0.8.8"
dfdx = "=0.9.0"
bevy = { version = "=0.8.1", default-features = false, features = ["bevy_asset", "bevy_scene", "render"] }
bevy_rapier3d = "=0.16.2"
bevy_prototype_debug_lines = { version = "=0.8.1", features = ["3d"] }
