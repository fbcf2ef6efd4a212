[package]
name = "vtracer"
version = "0.1.0"
edition = "2021"
publish = false

[dependencies]
visioncortex = "=0.8.10"
image = { version = "0.24", default-features = false, features = ["png", "jpeg"] }
