[package]
name = "triangle_frame"
version = "0.1.0"
edition = "2021"
publish = false

[dependencies]
pollster = "=0.3.0"
bytemuck = "=1.25.2"
