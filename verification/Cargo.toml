[package]
name = "particle_sim"
version = "0.1.0"
edition = "2021"
publish = false

[dependencies]
rand = "0.8"
cgmath = "0.18"
wgpu = "0.14"
winit = "0.27"
bytemuck = "1"
pollster = "0.2"
