[package]
name = "postfx"
version = "0.1.0"
edition = "2021"
publish = false

[dependencies]
wgpu = { version = "=22.1.0", default-features = false, features = ["wgsl"] }
bytemuck = { version = "=1.25.2", features = ["derive"] }
chrono = { version = "=0.4.45", default-features = false, features = ["clock"] }
log = "=0.4.34"
env_logger = { version = "=0.11.11", default-features = false }
