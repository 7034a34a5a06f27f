[package]
name = "gl_triangle"
version = "0.1.0"
edition = "2021"
publish = false

[dependencies]
anyhow = "1"
bytemuck = "1"
gl = "0.14"
glutin = { version = "0.29", default-features = false, features = ["x11"] }
