[package]
name = "shogi_cards"
version = "0.1.0"
edition = "2021"
publish = false

[dependencies]
clap_conf = "*"
mksvg = "*"
serde = "*"
serde_derive = "*"
toml = "*"
