[package]
name = "ethash_pow"
version = "0.1.0"
edition = "2021"
publish = false

[dependencies]
ethash = "=0.4.0"
ethereum-types = "=0.8.0"
futures = "=0.3.34"
jsonrpc-core = "=18.0.0"
log = "=0.4.34"
parking_lot = "=0.13.0"
sha3 = "=0.8.2"

[dev-dependencies]
parity-scale-codec = "=3.7.5"
