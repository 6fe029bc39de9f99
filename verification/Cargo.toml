[package]
name = "retrier"
version = "0.1.0"
edition = "2021"
publish = false

[dependencies]
async-std = "1"
rand = "=0.8.8"
