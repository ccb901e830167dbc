[package]
name = "mango_tcs"
version = "0.1.0"
edition = "2021"
publish = false

[dependencies]
fixed = "=1.11.0"
rand = "0.8"
itertools = "0.10"
anyhow = "1"
futures = "0.3"
