[package]
name = "h2l"
version = "0.1.0"
edition = "2021"
publish = false

[dependencies]
httparse = "1"
async-std = "1"
bytes = "1"
log = "0.4"
parking_lot = "0.12"
