[package]
name = "fast_pool"
version = "0.1.0"
edition = "2021"
publish = false

[dependencies]
crossbeam-channel = "0.5"
crossbeam-utils = "0.8"
darling = "0.14"
num_cpus = "1"
parking_lot = "0.12"
proc-macro2 = "1"
quote = "1"
syn = { version = "1", features = ["full"] }
