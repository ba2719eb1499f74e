[package]
name = "solana_common"
version = "0.1.0"
edition = "2021"
publish = false

[dependencies]
sha2 = "0.10"
convert_case = "0.6"
syn = { version = "2", features = ["full"] }
quote = "1"
proc-macro2 = "1"
borsh = { version = "1", features = ["derive"] }
snafu = "0.8"
solana-pubkey = "2"
solana-instruction = "2"
solana-account = "2"
solana-clock = "2"
solana-program-pack = "2"
solana-commitment-config = "2"
solana-rpc-client = "2"
solana-rpc-client-api = "2"
