[package]
name = "climb_pool"
version = "0.1.0"
edition = "2021"
publish = false

[dependencies]
layer-climb-address = "=0.3.7"
layer-climb-config = "=0.3.7"
deadpool = "=0.13.1"
anyhow = "=1.0.104"
