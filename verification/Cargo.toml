[package]
name = "chain_network"
version = "0.1.0"
edition = "2021"
publish = false

[dependencies]
cbor_event = "=2.1.3"
futures = "=0.1.31"
h2 = "=0.1.26"
tokio = "=0.1.22"
