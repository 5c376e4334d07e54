[package]
name = "parity_clib"
version = "0.1.0"
edition = "2021"
publish = false

[dependencies]
futures = "0.1"
jni = "0.10"
tokio-current-thread = "0.1"
