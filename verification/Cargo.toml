[package]
name = "map_registry"
version = "0.1.0"
edition = "2021"
publish = false

[dependencies]
dashmap = "*"
once_cell = "*"
