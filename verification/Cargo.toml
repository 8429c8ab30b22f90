[package]
name = "gecko"
version = "0.1.0"
edition = "2021"
publish = false

[dependencies]
base64 = "=0.23.1"
colored = "=3.1.1"
rustc-hash = "2"

[dev-dependencies]
wasmparser = "*"
