[package]
name = "adore"
version = "0.1.0"
edition = "2021"
publish = false

[dependencies]
anyhow = "=1.0.104"
colorize = "=0.1.0"
env_logger = { version = "=0.11.11", default-features = false }
glam = "=0.25.0"
hashbrown = "=0.14.5"
image = { version = "=0.24.9", default-features = false, features = ["png", "jpeg"] }
instant = "=0.1.13"
log = "=0.4.34"
once_cell = "=1.21.4"
pollster = "=0.3.0"
raw-window-handle = "=0.6.2"
thiserror = "=1.0.69"
uuid = { version = "=1.29.0", features = ["v4"] }
wgpu = { version = "0.19", default-features = false, features = ["wgsl"] }
