[package]
name = "fastview"
version = "0.1.0"
edition = "2021"
publish = false

[dependencies]
ab_glyph = "0.2"
bincode = "1.3"
bytemuck = { version = "1", features = ["derive"] }
crossbeam-channel = "0.5"
env_logger = "0.11"
futures-lite = "2"
image = { version = "0.25", default-features = false, features = ["jpeg", "png", "webp"] }
imageproc = { version = "0.25", default-features = false }
img-parts = "0.3"
interprocess = "1.2"
kamadak-exif = "0.5"
serde = { version = "1", features = ["derive"] }
serde_json = "1"
sled = "0.34"
wgpu = "23"
winit = "0.30"
