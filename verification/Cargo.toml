[package]
name = "kumquat_gpu_protocol"
version = "0.1.0"
edition = "2021"
publish = false

[dependencies]
mesa3d_util = "*"
zerocopy = { version = "0.8", features = ["derive"] }
