[package]
name = "glimmer"
version = "0.1.0"
edition = "2021"
publish = false

[dependencies]
anyhow = "1"
glium = "0.32"
glutin = "0.29"
image = "0.24"
resource = "*"
