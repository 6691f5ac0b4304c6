[package]
name = "plonk_circuit"
version = "0.1.0"
edition = "2021"
publish = false

[dependencies]
bls12_381 = "0.7"
ff = "0.12"
rand_core = { version = "0.6", features = ["getrandom"] }
