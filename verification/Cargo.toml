[package]
name = "libdoh"
version = "0.1.0"
edition = "2021"
publish = false

[dependencies]
odoh-rs = "=1.0.5"
arc-swap = "1"
bytes = "1"
rand = "0.10"
tokio = { version = "1", features = ["rt", "rt-multi-thread", "time", "macros"] }
