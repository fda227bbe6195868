[package]
name = "quic_extensions"
version = "0.1.0"
edition = "2021"
publish = false

[dependencies]
fastrand = "*"
pluginop-wasm = "*"
lazy_static = "*"
