[package]
name = "matrix_room"
version = "0.1.0"
edition = "2021"
publish = false

[dependencies]
unicode-segmentation = "=1.13.3"
uuid = { version = "=1.29.0", features = ["v4"] }
url = "=2.5.8"
matrix-sdk = { version = "=0.14.0", default-features = false, features = ["rustls-tls", "markdown"] }
weechat = { version = "=0.4.0", features = ["async"] }
tokio = { version = "1", features = ["rt-multi-thread", "sync"] }
futures = "0.3"
tracing = "0.1"
