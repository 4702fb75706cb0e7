[package]
name = "torhttp"
version = "0.1.0"
edition = "2021"
publish = false

[dependencies]
anyhow = "*"
http-body-util = "*"
hyper = { version = "*", features = ["client", "http1"] }
hyper-util = { version = "*", features = ["tokio"] }
tokio = { version = "*", features = ["rt", "rt-multi-thread", "io-util"] }
tokio-native-tls = "*"
