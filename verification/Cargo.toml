[package]
name = "arevel"
version = "0.1.0"
edition = "2021"
publish = false

[dependencies]
flatbuffers = "*"
fnv = "*"
lazy_static = "*"
wasm-bindgen = "*"
