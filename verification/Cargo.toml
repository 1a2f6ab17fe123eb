[package]
name = "eth_lake"
version = "0.1.0"
edition = "2021"
publish = false

[dependencies]
url = "=2.5.8"
arrow = { version = "=56.2.1", default-features = false }
alloy = { version = "=0.1.4", default-features = false, features = ["providers", "provider-http", "rpc-types-eth"] }
pyo3 = { version = "=0.20.3", features = ["extension-module"] }
pyo3-asyncio = { version = "=0.20.0", features = ["tokio-runtime"] }
