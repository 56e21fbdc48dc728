[package]
name = "escrow"
version = "0.1.0"
edition = "2021"
publish = false

[dependencies]
solana-program = "=1.18.26"
spl-token = { version = "=4.0.3", features = ["no-entrypoint"] }
thiserror = "=1.0.69"

[dev-dependencies]
borsh = "=1.8.1"
bincode = "=1.3.3"
