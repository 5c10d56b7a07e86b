[package]
name = "nft_marketplace"
version = "0.1.0"
edition = "2021"
publish = false

[dependencies]
candid = "0.10"
ic-cdk = "0.13"
ic-cdk-macros = "0.13"
ic-ledger-types = "0.10"
ic-stable-structures = "0.6"
icrc-ledger-types = "0.1"
serde = { version = "1", features = ["derive"] }
serde_json = "1"
