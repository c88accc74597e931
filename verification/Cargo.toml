[package]
name = "wafer"
version = "0.1.0"
edition = "2021"
publish = false

[dependencies]
serde = { version = "1", features = ["derive"] }
serde_json = "1"
tracing = "0.1"
wasmtime = { version = "41", default-features = false, features = ["cranelift", "gc", "gc-drc", "gc-null", "runtime", "std", "threads", "wat"] }
