[package]
name = "plugin_host"
version = "0.1.0"
edition = "2021"
publish = false

[dependencies]
anyhow = "*"
wasmtime = { version = "*", default-features = false, features = ["runtime", "cranelift", "wat", "std", "signals-based-traps"] }
