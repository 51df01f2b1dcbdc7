[package]
name = "halo2_playground"
version = "0.1.0"
edition = "2021"
publish = false

[dependencies]
halo2_proofs = "*"
