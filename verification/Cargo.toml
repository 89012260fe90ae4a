[package]
name = "view_loop"
version = "0.1.0"
edition = "2021"
publish = false

[dependencies]
winit = "=0.26.1"
glutin = "=0.28.0"
gl = "=0.14.0"
pathfinder_geometry = "=0.5.1"
pathfinder_gl = "=0.5.0"
pathfinder_renderer = "=0.5.0"
pathfinder_resources = "=0.5.0"
pathfinder_color = "=0.5.0"
pathfinder_simd = { version = "=0.5.6", features = ["pf-no-simd"] }
