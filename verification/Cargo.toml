[package]
name = "vulkan"
version = "0.1.0"
edition = "2021"
publish = false

[dependencies]
anyhow = "1"
ash = "0.37"
raw-window-handle = "0.5"
