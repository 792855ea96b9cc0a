[package]
name = "aligned_buffer"
version = "0.1.0"
edition = "2021"
publish = false

[dependencies]
core_affinity = "*"
