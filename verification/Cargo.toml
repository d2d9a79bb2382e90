[package]
name = "sock5s"
version = "0.2.1"
edition = "2021"
publish = false

[dependencies]
clap = "2"
libc = "0.2"
socket2 = "*"
tokio = { version = "1", features = ["rt-multi-thread", "macros", "net", "io-util"] }
tokio-stream = "0.1"
