[package]
name = "game_template_platform"
version = "0.1.0"
edition = "2021"
publish = false

[dependencies]
eyre = "0.6"
ggez = "0.5"
