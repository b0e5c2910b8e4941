[package]
name = "runtime_bindings"
version = "0.1.0"
edition = "2021"
publish = false

[dependencies]
melior = "0.19"
