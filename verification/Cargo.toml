[package]
name = "stitcher"
version = "0.1.0"
edition = "2021"
publish = false

[dependencies]
quinn = "=0.11.12"
rcgen = "=0.14.10"
rustls = { version = "=0.23.45", default-features = false, features = ["ring", "std", "tls12"] }
