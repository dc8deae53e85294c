[package]
name = "graphvizm"
version = "0.1.0"
edition = "2021"
publish = false

[dependencies]
anyhow = "1"
thiserror = "2"
wasmtime = { version = "=46.0.3", default-features = false, features = ["component-model", "cranelift", "runtime", "std"] }
wasmtime-wasi = "=46.0.3"

[dev-dependencies]
wat = "1"
