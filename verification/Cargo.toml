[package]
name = "ort"
version = "0.1.0"
edition = "2021"
publish = false

[dependencies]
ndarray = "0.16"
ort-sys = "=2.0.0-rc.10"
