[package]
name = "graphics_bridge"
version = "0.1.0"
edition = "2021"
publish = false

[dependencies]
openvr = "*"
openxr = { version = "*", default-features = false }
