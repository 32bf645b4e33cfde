[package]
name = "clean_stdlib"
version = "0.1.0"
edition = "2021"
publish = false

[dependencies]
wasm-encoder = "*"
