[package]
name = "rust_core"
version = "0.1.0"
edition = "2021"
publish = false

[dependencies]
ndarray = "0.15"
symphonia = "0.5"
