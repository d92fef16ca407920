[package]
name = "minirender"
version = "0.1.0"
edition = "2021"
publish = false

[dependencies]
anyhow = "1"
bytemuck = { version = "1", features = ["derive"] }
encase = { version = "0.7", features = ["nalgebra"] }
env_logger = { version = "0.10", default-features = false }
image = { version = "0.24", default-features = false, features = ["jpeg", "png"] }
log = "0.4"
nalgebra = "0.32"
pollster = "0.3"
tobj = "4"
wgpu = { version = "0.19", default-features = false, features = ["wgsl"] }
