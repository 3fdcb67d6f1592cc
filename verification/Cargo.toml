[package]
name = "wasm_registry"
version = "0.1.0"
edition = "2021"
publish = false

[dependencies]
wasmer = "=6.1.0"
wasmer-cache = "=6.1.0"
uuid = { version = "=1.27.0", features = ["v5"] }

[dev-dependencies]
wat = "=1.261.0"
