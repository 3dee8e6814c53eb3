[package]
name = "engine_evm"
version = "0.1.0"
edition = "2021"
publish = false

[dependencies]
aurora-engine-types = "=3.0.0"
aurora-engine-sdk = "=2.0.1"
aurora-engine-precompiles = "=2.1.0"
aurora-evm = "=2.2.1"
hex = "=0.4.3"

[dev-dependencies]
byte-slice-cast = "=1.2.3"
