[package]
name = "klmd_contracts"
version = "0.1.0"
edition = "2021"
publish = false

[dependencies]
cosmwasm-std = "1"
cw-storage-plus = "1"
cw-utils = "1"
cw2 = "1"
cw20 = "1"
serde = { version = "1", features = ["derive"] }
schemars = "0.8"
thiserror = "1"
cosmwasm-schema = "1"
