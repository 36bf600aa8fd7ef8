[package]
name = "window_lifecycle"
version = "0.1.0"
edition = "2021"
publish = false

[dependencies]
bgfx-rs = "*"
glfw = "*"
raw-window-handle = "*"
