[package]
name = "evm_tracer"
version = "0.1.0"
edition = "2021"
publish = false

[dependencies]
evm = { version = "0.41", features = ["tracing"] }
evm-runtime = { version = "0.41", features = ["tracing"] }
evm-gasometer = { version = "0.41", features = ["tracing"] }
