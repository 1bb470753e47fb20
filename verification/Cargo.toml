[package]
name = "bitcoincore_rpc"
version = "0.1.0"
edition = "2021"
publish = false

[dependencies]
hex = "*"
jsonrpc = "*"
serde = "*"
serde_json = "*"
