[package]
name = "toot"
version = "0.1.0"
edition = "2021"
publish = false

[dependencies]
html2text = "*"
mastodon-async = { version = "*", default-features = false, features = ["rustls-tls", "toml"] }
reqwest = { version = "0.11", default-features = false, features = ["rustls-tls"] }
tokio = { version = "*", features = ["rt-multi-thread", "sync", "macros"] }
tracing = "*"
open = "*"
futures-util = "*"
