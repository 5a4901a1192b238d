[package]
name = "escrow_settlement"
version = "0.1.0"
edition = "2021"
publish = false

[dependencies]
pinocchio = { version = "=0.11.2", features = ["cpi"] }
pinocchio-token = "=0.7.0"
solana-address = { version = "=2.9.0", features = ["curve25519"] }
thiserror = "=2.0.21"
num-derive = "=0.5.1"
num-traits = "=0.2.19"
