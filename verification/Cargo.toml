[package]
name = "integer"
version = "0.1.0"
edition = "2021"
publish = false

[dependencies]
num-bigint = "0.4"
halo2_proofs = "0.2"
