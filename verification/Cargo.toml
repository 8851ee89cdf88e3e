[package]
name = "spsc_rs"
version = "0.1.0"
edition = "2021"
publish = false

[dependencies]
cache-padded = "1"
futures-sink = "0.3"
futures-util = "0.3"
