[package]
name = "house"
version = "0.1.0"
edition = "2021"
publish = false

[dependencies]
futures = "=0.3.34"
wgpu = "=0.15.1"
winit = "=0.27.5"
zerocopy = { version = "=0.7.35", features = ["derive"] }
