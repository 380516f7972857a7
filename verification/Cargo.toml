[package]
name = "gb7-core"
version = "0.1.0"
edition = "2021"
publish = false

[dependencies]
pixels = "0.11"
winit = "0.27"
