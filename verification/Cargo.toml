[package]
name = "synic"
version = "0.1.0"
edition = "2021"
publish = false

[dependencies]
parking_lot = "0.12"
tracing = { version = "0.1", default-features = false, features = ["std"] }
zerocopy = "0.8"
