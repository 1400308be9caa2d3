[package]
name = "oswin"
version = "0.1.0"
edition = "2021"
publish = false

[dependencies]
anyhow = "1"
bytemuck = "1"
pollster = "*"
skrifa = "*"
vello = "0.4"
winit = "0.30"
