[package]
name = "ruster"
version = "0.1.0"
edition = "2021"
publish = false

[dependencies]
parity-wasm = "0.31"
codegen = "0.1"
clap = "2"
