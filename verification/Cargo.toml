[package]
name = "crankit_input"
version = "0.1.0"
edition = "2021"
publish = false

[dependencies]
playdate-sys = "*"
crankit-game-loop = "*"
