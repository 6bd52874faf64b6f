[package]
name = "wasm_hub"
version = "0.1.0"
edition = "2021"
publish = false

[dependencies]
cassette = "*"
futures = "*"
prost = "*"
