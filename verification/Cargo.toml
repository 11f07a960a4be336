[package]
name = "bevy_godot4"
version = "0.1.0"
edition = "2021"
publish = false

[dependencies]
bevy = { version = "0.14", default-features = false }
godot = "*"
lazy_static = "1"
