[package]
name = "safegl"
version = "0.1.0"
edition = "2021"
publish = false

[dependencies]
glfw = { version = "=0.55.0", default-features = false }
