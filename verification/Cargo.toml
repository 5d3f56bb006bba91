[package]
name = "zela_std"
version = "0.2.0"
edition = "2021"
publish = false

[dependencies]
base64 = "=0.22.1"
bincode = "=1.3.3"
futures-util = { version = "=0.3.34", default-features = false, features = ["std"] }
log = "=0.4.35"
serde = { version = "=1.0.229", features = ["derive"] }
serde_json = "=1.0.154"
solana-account-decoder-client-types = { version = "=3.1.14", features = ["zstd"] }
solana-commitment-config = "=3.1.1"
solana-rpc-client-types = "=3.1.14"
solana-sdk = "=3.0.0"
solana-transaction-status-client-types = "=3.1.14"
thiserror = "=2.0.21"
wit-bindgen = "=0.57.1"
