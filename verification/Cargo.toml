[package]
name = "grid_duel"
version = "0.1.0"
edition = "2021"
publish = false

[dependencies]
ggez = { version = "0.8", default-features = false }
glam = { version = "*", features = ["mint"] }
