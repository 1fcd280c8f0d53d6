[package]
name = "media_engine"
version = "0.1.0"
edition = "2021"
publish = false

[dependencies]
cpal = "0.15"
ffmpeg-next = { version = "7.1", default-features = false, features = ["codec", "format", "software-resampling", "software-scaling"] }
numpy = "0.23"
pyo3 = { version = "0.23", features = ["abi3-py310", "extension-module"] }
