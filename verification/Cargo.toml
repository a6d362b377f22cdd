[package]
name = "robstride_driver"
version = "0.1.0"
edition = "2021"
publish = false

[dependencies]
libc = "*"
socket2 = "*"
tokio = { version = "*", features = ["io-util", "macros", "net", "rt", "time"] }
