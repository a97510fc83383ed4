[package]
name = "txrpc"
version = "0.1.0"
edition = "2021"
publish = false

[dependencies]
base64 = "*"
bitcoin = "*"
bitcoincore-rpc = "*"
jsonrpc = "*"
serde_json = { version = "*", features = ["raw_value"] }
reqwest = { version = "*", default-features = false }

[dev-dependencies]
hex = "*"
