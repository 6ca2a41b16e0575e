[package]
name = "stake_sim"
version = "0.1.0"
edition = "2021"
publish = false

[dependencies]
rand = "*"
integer-sqrt = "*"
