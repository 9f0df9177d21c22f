[package]
name = "sands"
version = "0.1.0"
edition = "2021"
publish = false

[dependencies]
chrono = "0.4"
clap = { version = "4", features = ["derive"] }
colored = "2"
image = { version = "0.24", default-features = false, features = ["png"] }
log = { version = "0.4", features = ["std"] }
once_cell = "1"
vulkano = "0.34"
vulkano-shaders = "0.34"
winit = "0.28"
