[package]
name = "blue_rdma_driver"
version = "0.1.0"
edition = "2021"
publish = false

[dependencies]
bitvec = "1"
ibverbs-sys = "*"
serde = { version = "1", features = ["derive"] }
serde_json = "1"
libc = "0.2"
memmap2 = "0.9"
pnet = "0.35"
flume = "0.11"
parking_lot = "0.12"
