[package]
name = "remuxer"
version = "0.1.0"
edition = "2021"
publish = false

[dependencies]
dirs = "*"
reqwest = { version = "0.12", default-features = false, features = ["rustls-tls"] }
zip = "*"
