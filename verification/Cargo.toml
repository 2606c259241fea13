[package]
name = "custody_engine"
version = "0.1.0"
edition = "2021"
publish = false

[dependencies]
solana-program = "=5.1.0"
solana-pubkey = { version = "=4.4.0", features = ["curve25519"] }
spl-token = { version = "=9.0.0", features = ["no-entrypoint"] }
pinocchio = "=0.11.2"
pinocchio-system = "=0.6.1"
pinocchio-token = "=0.7.0"
five8_const = "=1.0.0"
