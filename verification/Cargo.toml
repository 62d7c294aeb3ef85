[package]
name = "ledger_kit"
version = "0.1.0"
edition = "2021"
publish = false

[dependencies]
anyhow = "=1.0.104"
base64 = "=0.21.7"
poem = "=3.1.12"
serde = { version = "=1.0.229", features = ["derive"] }
solana-sdk = "=2.3.1"
tokio = { version = "=1.54.1", features = ["macros", "rt-multi-thread"] }

[dev-dependencies]
spl-token = "=7.0.0"
