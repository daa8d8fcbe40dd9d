[package]
name = "installer"
version = "0.1.0"
edition = "2021"
publish = false

[dependencies]
nfd = "0.0.4"
tokio = { version = "1", features = ["fs", "io-util", "rt", "rt-multi-thread"] }
web-view = "0.7"
zip = { version = "0.6", default-features = false, features = ["deflate"] }
