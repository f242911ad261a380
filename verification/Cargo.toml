[package]
name = "solarity_runtime"
version = "0.1.0"
edition = "2021"
publish = false

[dependencies]
thiserror = "2"
tracing = "0.1"
