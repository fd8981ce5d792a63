[package]
name = "gzip_sink"
version = "0.1.0"
edition = "2021"
publish = false

[dependencies]
async-recursion = "1"
bytes = "1"
clap = { version = "4", features = ["derive"] }
flate2 = "1"
futures-util = { version = "0.3", features = ["sink"] }
tokio = { version = "1", features = ["fs", "io-util", "macros", "rt-multi-thread"] }
tokio-util = { version = "0.7", features = ["codec", "io"] }
