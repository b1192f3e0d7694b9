[package]
name = "scene"
version = "0.1.0"
edition = "2021"
publish = false

[dependencies]
glfw = "*"
glm = "*"
wavefront_obj = "*"
