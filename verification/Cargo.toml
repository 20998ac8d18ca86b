[package]
name = "cairodrag"
version = "0.5.0"
edition = "2021"
publish = false

[dependencies]
gtk4 = "*"
