[package]
name = "deep_filter_rt"
version = "0.1.0"
edition = "2021"
publish = false

[dependencies]
deep_filter = "*"
ndarray = "0.15"
numpy = "0.20"
pyo3 = "0.20"
