[package]
name = "scrt_sdk_core"
version = "0.1.0"
edition = "2021"
publish = false

[dependencies]
bincode2 = "*"
cosmwasm-std = "*"
serde = "*"
schemars = "*"
