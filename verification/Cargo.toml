[package]
name = "sorosusu"
version = "0.1.0"
edition = "2021"
publish = false

[dependencies]
soroban-sdk = "=21.7.7"

[dev-dependencies]
arbitrary = "1"
