[package]
name = "dowser_rf"
version = "0.1.0"
edition = "2021"
publish = false

[dependencies]
nalgebra = "*"
num-complex = "*"
spec_math = "*"
