[package]
name = "capsule_exchange"
version = "0.1.0"
edition = "2021"
publish = false

[dependencies]
arrow-array = "=60.0.0"
arrow-buffer = "=60.0.0"
arrow-data = "=60.0.0"
arrow-schema = "=60.0.0"
pyo3 = "=0.29.3"
