[package]
name = "mapping_sync"
version = "0.1.0"
edition = "2021"
publish = false

[dependencies]
fp-consensus = "=1.0.0"
sp-runtime = "=3.0.0"
sp-core = "=3.0.0"
ethereum = "=0.7.1"
substrate-bip39 = "=0.4.2"

[dev-dependencies]
parity-scale-codec = "=2.3.1"
