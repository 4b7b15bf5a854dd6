[package]
name = "sell_engine"
version = "0.1.0"
edition = "2021"
publish = false

[dependencies]
solana-signature = "=3.6.0"
solana-pubkey = "=3.0.0"
spl-associated-token-account = { version = "=8.0.0", default-features = false }
tokio = { version = "=1.53.2", default-features = false, features = ["rt", "time"] }
