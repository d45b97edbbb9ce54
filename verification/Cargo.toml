[package]
name = "render_hex"
version = "0.1.0"
edition = "2021"
publish = false

[dependencies]
crossbeam = "*"
svg = "*"
