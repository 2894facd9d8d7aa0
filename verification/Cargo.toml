[package]
name = "wasm_boundary"
version = "0.1.0"
edition = "2021"
publish = false

[dependencies]
holochain_serialized_bytes = "=0.0.51"
holochain_wasmer_common = "=0.0.84"
holochain_wasmer_host = "=0.0.84"
wasmer-engine = "=2.3.0"
rmp = "=0.8.14"
serde = { version = "=1.0.229", features = ["derive"] }
