[package]
name = "web_rwkv_tensor"
version = "0.1.0"
edition = "2021"
publish = false

[dependencies]
wgpu = { version = "0.17", default-features = false }
