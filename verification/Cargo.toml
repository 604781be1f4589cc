[package]
name = "stable_pool"
version = "0.1.0"
edition = "2021"
publish = false

[dependencies]
primitive-types = "=0.9.1"
schemars = "=0.7.6"
secret-cosmwasm-std = "=0.10.1"
secret-cosmwasm-storage = "=0.10.0"
secret-toolkit = "=0.2.0"
serde = { version = "1", features = ["derive"] }
