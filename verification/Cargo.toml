[package]
name = "bouncing_balls"
version = "0.1.0"
edition = "2021"
publish = false

[dependencies]
rand = "0.8"
three-d = { version = "0.15", default-features = false }
