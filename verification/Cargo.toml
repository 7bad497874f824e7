[package]
name = "nft_staking"
version = "0.1.0"
edition = "2021"
publish = false

[dependencies]
anchor-lang = "0.32.1"
mpl-core = "0.11.1"
