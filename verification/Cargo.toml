[package]
name = "space_invaders"
version = "0.1.0"
edition = "2021"
publish = false

[dependencies]
bevy = { version = "0.13", default-features = false }
rand = "0.8"
