[package]
name = "solana_tps"
version = "0.1.0"
edition = "2021"
publish = false

[dependencies]
solana-rpc-client = "=3.1.14"
solana-rpc-client-api = "=3.1.14"
solana-sdk-ids = "=3.1.0"
solana-transaction-status-client-types = "=3.1.14"
chrono = "0.4"
log = "0.4"
env_logger = "*"
dotenv = "0.15"
