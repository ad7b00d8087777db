[package]
name = "generative_art"
version = "0.1.0"
edition = "2021"
publish = false

[dependencies]
rand = "0.8"
hex = "0.4"
dashmap = "*"
image = "*"
svg = "*"
glam = "*"
barium = "*"
