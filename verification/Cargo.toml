[package]
name = "seilor_token"
version = "0.1.0"
edition = "2021"
publish = false

[dependencies]
num-integer = "0.1"
cosmwasm-std = "1"
cosmwasm-schema = "1"
cw-storage-plus = "1"
cw2 = "1"
thiserror = "1"
