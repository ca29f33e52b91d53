[package]
name = "vulkan_bootstrap"
version = "0.1.0"
edition = "2021"
publish = false

[dependencies]
ash = "0.38"
bytemuck = { version = "1", features = ["extern_crate_alloc"] }
glfw = "*"
