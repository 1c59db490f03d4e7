[package]
name = "edrum_waver"
version = "0.1.0"
edition = "2021"
publish = false

[dependencies]
sevenz-rust = "=0.6.1"
crossbeam-channel = "=0.5.17"
