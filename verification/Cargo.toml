[package]
name = "terrain_filter"
version = "0.1.0"
edition = "2021"
publish = false

[dependencies]
noise = "0.8"
