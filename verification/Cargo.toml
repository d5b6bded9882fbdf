[package]
name = "erc20_app"
version = "0.1.0"
edition = "2021"
publish = false

[dependencies]
sp-core = "*"
sp-runtime = "*"
sp-std = "*"
frame-support = "*"
frame-system = "*"
