[package]
name = "interchain-gas-paymaster"
version = "0.1.0"
edition = "2021"
publish = false

[dependencies]
borsh = { version = "*", features = ["derive"] }
cosmwasm-schema = "*"
hpl-interface = "*"
solana-program = "*"
