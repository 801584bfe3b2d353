[package]
name = "bbs_plus"
version = "0.1.0"
edition = "2021"
publish = false

[dependencies]
bls12_381 = "0.8"
ff = "0.13"
group = "0.13"
rand = "0.8"
