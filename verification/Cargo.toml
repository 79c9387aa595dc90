[package]
name = "chunkgen"
version = "0.1.0"
edition = "2021"
publish = false

[dependencies]
noise = "*"
rand_core = "*"
rand_pcg = "*"
wasm-bindgen = "*"
js-sys = "*"
