[package]
name = "ceangal"
version = "0.1.0"
edition = "2021"
publish = false

[dependencies]
wgpu = "=24.0.5"
wgpu-types = "=24.0.0"
winit = "=0.30.13"
pollster = "=0.4.0"
env_logger = "=0.11.11"
