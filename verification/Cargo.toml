[package]
name = "fractal_engine"
version = "0.1.0"
edition = "2021"
publish = false

[dependencies]
anyhow = "1"
rayon = "1"
softbuffer = "0.4"
winit = "0.30"
