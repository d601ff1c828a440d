[package]
name = "groth16_sim"
version = "0.1.0"
edition = "2021"
publish = false

[dependencies]
blstrs = "=0.7.1"
group = "0.13"
pairing = "0.23"
rand = "0.8"
