[package]
name = "bevy_pieces"
version = "0.1.0"
edition = "2021"
publish = false

[dependencies]
glam = "=0.30.10"
image = { version = "=0.25.10", default-features = false }
serde = { version = "=1.0.229", features = ["derive"] }
thiserror = "=2.0.21"
syn = { version = "=2.0.119", features = ["full"] }
quote = "=1.0.47"
proc-macro2 = "=1.0.107"
async-channel = "=2.5.0"
futures-lite = "=2.6.1"
wgpu-types = "=30.0.1"
