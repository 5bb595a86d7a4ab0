[package]
name = "wasm_workshop"
version = "0.1.0"
edition = "2021"
publish = false

[dependencies]
anyhow = "=1.0.104"
wasmtime = { version = "=36.0.20", default-features = false, features = ["cranelift", "runtime", "std"] }
spin-sdk = "=3.1.1"
