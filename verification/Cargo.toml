[package]
name = "plugin_host"
version = "0.1.0"
edition = "2021"
publish = false

[dependencies]
anyhow = "=1.0.104"
serde = { version = "=1.0.229", features = ["derive"] }
serde_json = "=1.0.154"
wasmtime = { version = "=46.0.3", default-features = false, features = ["cranelift", "runtime", "std", "wat"] }
wasmtime-wasi = { version = "=46.0.3", default-features = false }
