[package]
name = "servo"
version = "0.1.0"
edition = "2021"
publish = false

[dependencies]
stb_image = "*"
