[package]
name = "flashblocks_overlay"
version = "0.1.0"
edition = "2021"
publish = false

[dependencies]
alloy-consensus = "*"
alloy-eips = "*"
alloy-evm = { version = "*", features = ["overrides"] }
alloy-network = "*"
alloy-primitives = "*"
alloy-rpc-types = { version = "*", features = ["eth"] }
jsonrpsee = { version = "0.26", features = ["server-core"] }
jsonrpsee-types = "0.26"
reth-primitives-traits = "*"
revm = "*"
revm-inspectors = "*"
