[package]
name = "frcredox_hal"
version = "0.1.0"
edition = "2021"
publish = false

[dependencies]
futures = "0.1"
error-chain = { version = "0.12", default-features = false }
