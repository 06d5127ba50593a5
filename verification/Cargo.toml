[package]
name = "sawtooth_sabre"
version = "0.4.0"
edition = "2021"
publish = false

[dependencies]
rust-crypto = "0.2"
wasmi = "0.11"
