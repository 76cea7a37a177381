[package]
name = "cosm_figaro"
version = "0.1.0"
edition = "2021"
publish = false

[dependencies]
hex = "0.4"
sha2 = "0.10"
cosmwasm-std = "1.5"
cw2 = "1"
cw20 = "1"
cw-asset = "3"
cw-storage-plus = "1"
serde = { version = "1", features = ["derive"] }
schemars = "0.8"
thiserror = "1"
