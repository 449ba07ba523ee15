[package]
name = "ttf_render"
version = "0.1.0"
edition = "2021"
publish = false

[dependencies]
bitflags = "*"
byteorder = "1"
fix = "*"
svg = "*"
typenum = "1"
