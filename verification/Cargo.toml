[package]
name = "my-web-socket-client"
version = "0.1.0"
edition = "2021"
publish = false

[dependencies]
async-trait = "*"
bytes = "*"
futures = "*"
http = "*"
http-body-util = "*"
hyper = { version = "*", features = ["client", "http1"] }
hyper-tungstenite = "*"
hyper-util = { version = "*", features = ["tokio"] }
rand = "0.8"
tokio = { version = "*", features = ["full"] }
tokio-rustls = "*"
url-utils = "*"
