[package]
name = "deterministic_ball_sim"
version = "0.1.0"
edition = "2021"
publish = false

[dependencies]
bytemuck = "=1.25.2"
rand = "=0.8.8"
pollster = "=0.3.0"
futures-intrusive = "=0.5.0"
image = { version = "=0.24.9", default-features = false, features = ["png"] }
env_logger = { version = "=0.10.2", default-features = false }
wgpu = { version = "=0.19.4", default-features = false, features = ["wgsl"] }
