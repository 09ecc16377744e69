[package]
name = "wasm-wrapper-gen"
version = "0.1.0"
edition = "2021"
publish = false

[dependencies]
arrayvec = "0.4"
failure = "0.1"
failure_derive = "0.1"
quote = "0.3"
syn = { version = "0.11", features = ["full", "visit"] }
