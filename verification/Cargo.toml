[package]
name = "nft_auction"
version = "0.1.0"
edition = "2021"
publish = false

[dependencies]
cosmwasm-schema = "1.5"
cosmwasm-std = "1.5"
cw-ownable = "0.5"
cw-storage-plus = "1.2"
cw-utils = "1.0"
ink = "=5.0.0"
thiserror = "1"
