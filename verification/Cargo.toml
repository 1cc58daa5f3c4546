[package]
name = "cameleon"
version = "0.1.0"
edition = "2021"
publish = false

[dependencies]
byteorder = "1"
string-interner = "0.12"
futures = "0.3"
async-std = "1"
tracing = "0.1"
