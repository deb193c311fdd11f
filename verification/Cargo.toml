[package]
name = "libhca"
version = "0.1.0"
edition = "2021"
publish = false

[dependencies]
numeric_cast = "=0.3.0"
