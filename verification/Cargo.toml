[package]
name = "santa_game"
version = "0.1.0"
edition = "2021"
publish = false

[dependencies]
fastrand = "2"
bevy = { version = "0.15", default-features = false }
