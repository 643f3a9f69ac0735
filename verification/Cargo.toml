[package]
name = "wgsl_to_wgpu"
version = "0.1.0"
edition = "2021"
publish = false

[dependencies]
naga = { version = "*", features = ["wgsl-in"] }
proc-macro2 = "*"
quote = "*"
syn = "*"
