[package]
name = "imohash_rs"
version = "0.1.0"
edition = "2021"
publish = false

[dependencies]
hex = "0.4"
imohash = "*"
pyo3 = "0.23"
