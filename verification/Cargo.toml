[package]
name = "evm_generation"
version = "0.1.0"
edition = "2021"
publish = false

[dependencies]
ethereum-types = "0.14"
keccak-hash = "0.10"
log = "0.4"
