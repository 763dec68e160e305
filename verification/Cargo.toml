[package]
name = "viewport_lib_particles"
version = "0.1.0"
edition = "2021"
publish = false

[dependencies]
bytemuck = { version = "1", features = ["derive"] }
viewport-lib = "*"
