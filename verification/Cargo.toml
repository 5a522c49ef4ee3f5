[package]
name = "bridge_mock"
version = "0.1.0"
edition = "2021"
publish = false

[dependencies]
frame-support = "*"
sp-core = "*"
sp-io = "*"
sp-runtime = "*"
sp-std = "*"
