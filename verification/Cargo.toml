[package]
name = "orbit_viewer"
version = "0.1.0"
edition = "2021"
publish = false

[dependencies]
bytemuck = { version = "1", features = ["derive"] }
cgmath = "0.18"
instant = "0.1"
pollster = "0.3"
winit = { version = "0.29", default-features = false, features = ["rwh_06", "x11"] }
