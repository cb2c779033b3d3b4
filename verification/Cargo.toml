[package]
name = "ethtx"
version = "0.1.0"
edition = "2021"
publish = false

[dependencies]
rlp = "*"
evm = "*"
rjson = "*"
