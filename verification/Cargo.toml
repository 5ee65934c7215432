[package]
name = "rgb_bech32"
version = "0.1.0"
edition = "2021"
publish = false

[dependencies]
bech32 = "0.7"
deflate = "0.8"
inflate = "0.4"
