[package]
name = "miscutils"
version = "0.1.0"
edition = "2021"
publish = false

[dependencies]
failure = "=0.1.8"
libc = "=0.2.191"
openssl = "=0.10.81"
structopt = "=0.3.26"
tempfile = "=3.27.0"
