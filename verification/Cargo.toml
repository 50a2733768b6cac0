[package]
name = "ipfee"
version = "0.1.0"
edition = "2021"
publish = false

[dependencies]
bincode = "1.3.3"
crossbeam-channel = "0.5"
log = "0.4"
