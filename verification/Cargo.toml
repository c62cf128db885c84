[package]
name = "groove"
version = "0.1.0"
edition = "2021"

[dependencies]
lazy_static = "1"
libc = "0.2"
