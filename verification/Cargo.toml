[package]
name = "ripemd128"
version = "0.1.0"
edition = "2021"
publish = false

[dependencies]
block-buffer = "0.7"
digest = "0.8"
opaque-debug = "0.2"
