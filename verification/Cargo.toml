[package]
name = "akropolis_runtime"
version = "0.1.0"
edition = "2021"
publish = false

[dependencies]
sp-runtime = "=49.0.0"
frame-support = "=49.0.1"
sp-version = "=47.0.0"
