[package]
name = "ibc_gateway"
version = "0.1.0"
edition = "2021"
publish = false

[dependencies]
cosmwasm-schema = "1.5"
cosmwasm-std = { version = "1.5", features = ["stargate"] }
cw-storage-plus = "1.2"
serde-json-wasm = "1.0"
thiserror = "1"
