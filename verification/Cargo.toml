[package]
name = "wgpu_ui"
version = "0.1.0"
edition = "2021"
publish = false

[dependencies]
rusttype = "0.9"
anyhow = "1"
bytemuck = { version = "1", features = ["derive"] }
