[package]
name = "pixel_adjust"
version = "0.1.0"
edition = "2021"
publish = false

[dependencies]
after-effects = "*"
