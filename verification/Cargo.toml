[package]
name = "pls"
version = "0.1.0"
edition = "2021"
publish = false

[dependencies]
rust-ini = "=0.10.3"
