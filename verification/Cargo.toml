[package]
name = "rdma_transport"
version = "0.1.0"
edition = "2021"
publish = false

[dependencies]
flume = "*"
libc = "0.2"
serde = { version = "1", features = ["derive"] }
spin_sleep = "*"
ibverbs-sys = "*"
