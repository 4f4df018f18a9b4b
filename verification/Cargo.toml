[package]
name = "parquet_generator"
version = "0.1.0"
edition = "2021"
publish = false

[dependencies]
parquet = { version = "=60.0.0", default-features = false }
serde_json = "=1.0.151"
wasm-bindgen = "=0.2.100"

[dev-dependencies]
bytes = "=1.12.1"
