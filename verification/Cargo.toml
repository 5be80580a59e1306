[package]
name = "mutringbuf"
version = "0.1.0"
edition = "2021"
publish = false

[dependencies]
crossbeam-utils = "0.8"
futures = { version = "0.3", default-features = false, features = ["std"] }
libc = "0.2"
