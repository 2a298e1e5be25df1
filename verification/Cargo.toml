[package]
name = "chain_index"
version = "0.1.0"
edition = "2021"
publish = false

[dependencies]
anyhow = "1"
elements = "*"
fxhash = "0.2"
log = "0.4"
