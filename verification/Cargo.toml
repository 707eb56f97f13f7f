[package]
name = "nvml_wrapper"
version = "0.7.0"
edition = "2021"
publish = false

[dependencies]
libloading = "0.6"
nvml-wrapper-sys = "0.5"
