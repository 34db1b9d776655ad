[package]
name = "heph"
version = "0.1.0"
edition = "2021"
publish = false

[dependencies]
crossbeam-channel = "*"
futures = "*"
futures-core = "*"
heph-inbox = "*"
log = "*"
mio-st = "*"
