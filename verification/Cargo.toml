[package]
name = "jsonrpc-client-http"
version = "0.1.0"
edition = "2021"
publish = false

[dependencies]
error-chain = "=0.11.0"
futures = "=0.1.31"
hyper = "=0.11.27"
jsonrpc-client-core = "=0.2.1"
log = "=0.4.34"
tokio-core = "=0.1.18"

[dev-dependencies]
futures-cpupool = "=0.1.8"
