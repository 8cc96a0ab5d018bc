[package]
name = "avx_probe"
version = "0.1.0"
edition = "2021"
publish = false

[dependencies]
raw-cpuid = "=10.7.0"
