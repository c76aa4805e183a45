[package]
name = "wasmarin"
version = "0.1.0"
edition = "2021"
publish = false

[dependencies]
wasmparser = "0.230"
wasm-encoder = "0.230"
wat = "1.220"

[dev-dependencies]
wasmprinter = "0.230"
wasmtime = { version = "=27.0.0", default-features = false, features = ["runtime", "cranelift"] }
