[package]
name = "credence"
version = "0.1.0"
edition = "2021"
publish = false

[dependencies]
soroban-sdk = "*"
soroban-client = "*"
clap = { version = "4", features = ["derive"] }
anyhow = "1"
