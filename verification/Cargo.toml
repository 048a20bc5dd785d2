[package]
name = "compio_lite"
version = "0.1.0"
edition = "2021"
publish = false

[dependencies]
socket2 = { version = "0.6", features = ["all"] }
flume = "*"
noq-proto = { version = "*", default-features = false }
io_uring_buf_ring = "*"
