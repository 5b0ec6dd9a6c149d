[package]
name = "csrf"
version = "0.3.0"
edition = "2021"
publish = false

[dependencies]
rust-crypto = "0.2.36"
data-encoding = "2"
ring = "0.17"
time = "0.1"
typemap = "0.3"
