[package]
name = "tinkernet_node"
version = "0.1.0"
edition = "2021"
publish = false

[dependencies]
log = "*"
parity-scale-codec = "*"
polkadot-parachain-primitives = "*"
sp-core = "*"
sp-runtime = "*"
