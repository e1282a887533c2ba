[package]
name = "contract_registry"
version = "0.1.0"
edition = "2021"
publish = false

[dependencies]
serde_json = "1"
ethers = "2"
