[package]
name = "pixel_sim"
version = "0.1.0"
edition = "2021"
publish = false

[dependencies]
glium = "0.32"
rand = "0.8"
