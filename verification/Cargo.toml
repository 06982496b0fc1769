[package]
name = "base-flashblocks"
version = "0.1.0"
edition = "2021"
publish = false

[dependencies]
alloy-consensus = "*"
alloy-eips = "*"
alloy-primitives = "*"
alloy-rpc-types = "*"
alloy-rpc-types-eth = "*"
arc-swap = "*"
jsonrpsee = { version = "*", features = ["server", "macros"] }
jsonrpsee-types = "*"
serde = { version = "*", features = ["derive"] }
tokio = { version = "*", features = ["sync", "time", "rt", "macros"] }
tokio-stream = { version = "*", features = ["sync"] }
tokio-util = "*"
tracing = "*"

[dev-dependencies]
alloy-evm = { version = "*", features = ["overrides"] }
revm = "*"
