[package]
name = "symmetry_swap"
version = "0.1.0"
edition = "2021"
publish = false

[dependencies]
anchor-lang = "0.31"
anyhow = "1"
rust_decimal = "1"
solana-sdk = "2"
