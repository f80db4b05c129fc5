[package]
name = "identity_hub"
version = "0.1.0"
edition = "2021"
publish = false

[dependencies]
pollster = "*"
wgpu = { version = "23", default-features = false, features = ["wgsl"] }
