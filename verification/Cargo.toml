[package]
name = "pay_dcp"
version = "0.1.0"
edition = "2021"
publish = false

[dependencies]
base64 = "0.22"
bs58 = "0.5"
chrono = "0.4"
ed25519-dalek = { version = "2", features = ["rand_core"] }
rand = "0.8"
solana-pubkey = "*"
solana-signature = "*"
reqwest = { version = "*", default-features = false, features = ["json", "blocking"] }
tokio = { version = "1", features = ["time", "rt", "macros"] }
serde = { version = "1", features = ["derive"] }
serde_json = "1"
clap = { version = "4", features = ["derive"] }
dialoguer = "*"
owo-colors = "*"
