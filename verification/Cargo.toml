[package]
name = "kernel_drivers"
version = "0.1.0"
edition = "2021"
publish = false

[dependencies]
x86_64 = { version = "=0.15.5", default-features = false, features = ["instructions"] }
spin = "=0.9.9"
bootloader = "=0.9.35"
lazy_static = "=1.5.1"
