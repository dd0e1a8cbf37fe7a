[package]
name = "ucs03_zkgm"
version = "0.1.0"
edition = "2021"
publish = false

[dependencies]
alloy-sol-types = "=1.7.3"
alloy-primitives = "=1.7.3"
cosmwasm-std = { version = "=3.0.10", features = ["cosmwasm_1_2"] }
serde = { version = "=1.0.229", features = ["derive"] }
serde-json-wasm = "=1.0.1"
