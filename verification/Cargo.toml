[package]
name = "sci_rs"
version = "0.1.0"
edition = "2021"
publish = false

[dependencies]
ndarray = "*"
ndarray-conv = "*"
num-traits = "*"
rustfft = "*"
