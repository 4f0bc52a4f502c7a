[package]
name = "pong_core"
version = "0.1.0"
edition = "2021"
publish = false

[dependencies]
rand = "0.8"
ggez = "0.7"
glam = { version = "0.20", features = ["mint"] }
mint = "0.5"
