[package]
name = "stake_deposit_interceptor"
version = "0.1.0"
edition = "2021"
publish = false

[dependencies]
borsh = "=1.8.1"
solana-program = "=5.1.0"
solana-stake-interface = { version = "=4.4.0", features = ["bincode"] }
solana-system-interface = { version = "=3.3.0", features = ["bincode"] }
spl-associated-token-account = { version = "=8.0.0", features = ["no-entrypoint"] }
spl-stake-pool = { version = "=2.2.0", features = ["no-entrypoint"] }
spl-token-2022 = { version = "=11.1.0", features = ["no-entrypoint"] }

[dev-dependencies]
spl-token = { version = "=9.0.0", features = ["no-entrypoint"] }
