[package]
name = "memo_mint"
version = "0.1.0"
edition = "2021"
publish = false

[dependencies]
sha2 = "=0.10.9"
hex = "=0.4.3"
base64 = "=0.22.1"
bincode = "=1.3.3"
chrono = "=0.4.45"
serde = { version = "*", features = ["derive"] }
serde_json = "=1.0.151"
solana-keypair = "=2.2.3"
solana-pubkey = "=2.2.1"
solana-hash = "=2.2.1"
solana-instruction = "=2.2.1"
solana-signer = "=2.2.1"
solana-transaction = { version = "=2.2.3", features = ["serde", "bincode"] }
reqwest = { version = "=0.12.28", default-features = false, features = ["json", "rustls-tls"] }
tokio = { version = "*", features = ["macros", "rt-multi-thread", "time", "net"] }
axum = "=0.8.9"
tower-http = { version = "*", features = ["cors"] }
dotenvy = "*"
tracing = "*"
tracing-subscriber = "*"
