[package]
name = "wasm-opt"
version = "0.1.0"
edition = "2021"
publish = false

[dependencies]
anyhow = "=1.0.104"
cxx = "=1.0.205"
libc = "=0.2.191"
wasm-opt-sys = "=0.110.2"
