[package]
name = "sync_push_vec"
version = "0.1.0"
edition = "2021"
publish = false

[dependencies]
parking_lot = "*"
crossbeam-utils = "*"
