[package]
name = "delusion"
version = "0.1.0"
edition = "2021"
publish = false

[dependencies]
nalgebra = "*"
image = "0.24"
minifb = "*"
