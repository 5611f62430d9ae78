[package]
name = "three_d_core"
version = "0.1.0"
edition = "2021"
publish = false

[dependencies]
glow = "*"
