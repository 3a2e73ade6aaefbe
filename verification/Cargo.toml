[package]
name = "mint_service"
version = "0.1.0"
edition = "2021"
publish = false

[dependencies]
solana-sdk = "=2.1.21"
spl-token = { version = "=6.0.0", features = ["no-entrypoint"] }
spl-associated-token-account = { version = "=4.0.0", features = ["no-entrypoint"] }
tokio = { version = "1", features = ["rt-multi-thread", "macros", "net"] }
axum = "0.7"
serde = { version = "1", features = ["derive"] }
serde_json = "1"
bincode = "1"
base64 = "0.22"
