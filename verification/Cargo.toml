[package]
name = "wasm_filter"
version = "0.1.0"
edition = "2021"
publish = false

[dependencies]
proxy-wasm = "=0.2.5"
rand_core = "=0.10.1"
rand_pcg = "=0.10.2"
