[package]
name = "bevy_tween"
version = "0.1.0"
edition = "2021"
publish = false

[dependencies]
bevy_lookup_curve = { version = "=0.13.0", default-features = false }
bevy_time_runner = { version = "*", default-features = false }
