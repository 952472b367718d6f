[package]
name = "confidential_payments"
version = "0.1.0"
edition = "2021"
publish = false

[dependencies]
anchor-lang = "=1.0.3"
anchor-spl = { version = "=1.0.3", default-features = false, features = ["associated_token", "mint", "token", "token_2022"] }
anyhow = "=1.0.104"
bytemuck = "=1.25.2"
clap = { version = "=4.6.7", default-features = false, features = ["derive", "error-context", "help", "std", "usage"] }
solana-commitment-config = "=3.1.1"
solana-keypair = "=3.1.2"
solana-signer = "=3.0.1"
solana-system-interface = { version = "=2.0.0", features = ["bincode"] }
solana-transaction = { version = "=3.1.0", features = ["bincode"] }
solana-zk-elgamal-proof-interface = "=0.1.3"
solana-zk-sdk = "=6.0.1"
spl-token-confidential-transfer-proof-extraction = "=0.5.1"
spl-token-confidential-transfer-proof-generation = "=0.6.0"

[dev-dependencies]
solana-rent = "=3.1.0"
solana-sha256-hasher = "=3.1.0"
solana-sysvar = "=3.1.1"
spl-token-2022 = { version = "=10.0.0", features = ["no-entrypoint"] }
spl-token-group-interface = "=0.7.1"
