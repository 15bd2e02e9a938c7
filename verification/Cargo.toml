[package]
name = "rental"
version = "0.1.0"
edition = "2021"
publish = false

[dependencies]
anchor-lang = "=1.2.0"
anchor-spl = "=1.2.0"
mpl-token-metadata = "=5.1.1"
solana-program = "=2.3.0"
