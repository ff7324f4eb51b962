[package]
name = "sol_trade_sdk"
version = "0.1.0"
edition = "2021"
publish = false

[dependencies]
base64 = "=0.22.1"
bincode = "=1.3.3"
bs58 = "=0.5.1"
chrono = "=0.4.45"
clap = { version = "=4.6.7", features = ["derive", "env"] }
crossbeam-queue = "=0.3.14"
crossbeam-utils = "=0.8.23"
fnv = "=1.0.7"
libc = "=0.2.191"
log = "=0.4.35"
memmap2 = "=0.9.12"
num_cpus = "=1.17.0"
rand = "=0.8.8"
reqwest = { version = "=0.12.28", default-features = false, features = ["json", "rustls-tls"] }
serde = { version = "=1.0.229", features = ["derive"] }
serde_json = "=1.0.154"
solana-commitment-config = "2"
solana-compute-budget-interface = { version = "=2.2.2", features = ["borsh"] }
solana-hash = "=2.3.0"
solana-instruction = { version = "=2.3.3", features = ["bincode", "borsh"] }
solana-keypair = "2"
solana-message = "2"
solana-nonce = { version = "=2.2.1", features = ["serde"] }
solana-pubkey = { version = "=2.4.0", features = ["curve25519"] }
solana-rpc-client = { version = "2", default-features = false }
solana-signer = "2"
solana-system-interface = { version = "=1.0.0", features = ["bincode"] }
solana-transaction = { version = "2", features = ["bincode"] }
tokio = { version = "=1.54.1", features = ["rt-multi-thread", "macros", "time", "sync"] }
toml = "=0.8.23"
