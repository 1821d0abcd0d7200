[package]
name = "roast"
version = "0.1.0"
edition = "2021"
publish = false

[dependencies]
glam = "=0.30.10"
image = "=0.25.10"
