[package]
name = "spaceship_control"
version = "0.1.0"
edition = "2021"
publish = false

[dependencies]
bevy = { version = "0.7", default-features = false, features = ["render", "bevy_winit", "png", "x11"] }
bevy_rapier2d = "0.13"
