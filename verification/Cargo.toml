[package]
name = "box_frame"
version = "0.1.0"
edition = "2021"
publish = false

[dependencies]
bevy = { version = "0.14", default-features = false }
parry3d = { version = "0.17" }
