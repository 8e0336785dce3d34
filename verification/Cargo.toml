[package]
name = "drand_rs"
version = "0.1.0"
edition = "2021"
publish = false

[dependencies]
futures = "*"
hex = "*"
reqwest = { version = "*", default-features = false }
sha2 = "*"
