[package]
name = "transparency_anchor"
version = "0.1.0"
edition = "2021"
publish = false

[dependencies]
anchor-lang = "=1.2.1"
anchor-spl = { version = "=1.2.1", default-features = false, features = ["token", "solana-v3"] }
mpl-token-metadata = "=5.1.1"
solana-pubkey = { version = "=3.0.0", features = ["curve25519"] }

[dev-dependencies]
borsh = "=0.10.4"
