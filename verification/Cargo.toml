[package]
name = "garble_service"
version = "0.1.0"
edition = "2021"
publish = false

[dependencies]
anyhow = "1"
bitvec = "1"
rand_chacha = "0.9"
