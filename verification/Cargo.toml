[package]
name = "bn254"
version = "0.1.0"
edition = "2021"

[dependencies]
num-bigint = "0.4"
num-traits = "0.2"

[dev-dependencies]
rand = "0.8"
