[package]
name = "solana_server"
version = "0.1.0"
edition = "2021"
publish = false

[dependencies]
axum = "=0.8.9"
base64 = "=0.23.1"
bincode = "=1.3.3"
bs58 = "=0.5.1"
serde = { version = "=1.0.229", features = ["derive"] }
serde_json = "=1.0.151"
solana-sdk = "=5.0.0"
solana-system-interface = { version = "=3.3.0", features = ["bincode"] }
spl-associated-token-account = "=8.0.0"
spl-token = "=9.0.0"
tokio = { version = "=1.53.2", features = ["macros", "rt-multi-thread"] }
tower-http = { version = "=0.7.1", features = ["cors", "trace"] }
tracing = "=0.1.44"
