[package]
name = "fish_dating"
version = "0.1.0"
edition = "2021"
publish = false

[dependencies]
rhai = "=1.27.0"
serde = { version = "=1.0.229", features = ["derive"] }
serde_json = "=1.0.154"
rand = "=0.8.8"
tracing = "=0.1.44"
tracing-subscriber = "=0.3.23"
dirs-next = "=2.0.0"
pollster = "=0.3.0"
bytemuck = "=1.25.2"
winit = "=0.30.13"
wgpu = "=25.0.2"
sable-gpu = "=0.1.0"
sable-platform = "=0.1.0"
