[package]
name = "escrow_pay"
version = "0.1.0"
edition = "2021"
publish = false

[dependencies]
soroban-sdk = "*"
