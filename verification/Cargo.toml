[package]
name = "titan_swap_api_client"
version = "0.1.0"
edition = "2021"
publish = false

[dependencies]
solana-sdk = "=5.0.0"
reqwest = { version = "=0.13.5", default-features = false, features = ["query"] }

[dev-dependencies]
rmp-serde = "=1.3.1"
serde = "*"
