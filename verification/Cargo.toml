[package]
name = "chessboard_rs"
version = "0.1.0"
edition = "2021"
publish = false

[dependencies]
anyhow = "1"
bytemuck = { version = "1", features = ["derive"] }
env_logger = "0.8"
image = { version = "0.23", default-features = false, features = ["png"] }
log = "0.4"
nalgebra = { version = "0.25", features = ["convert-bytemuck"] }
tokio = { version = "1", features = ["rt", "macros"] }
wgpu = "0.7"
winit = "0.24"
