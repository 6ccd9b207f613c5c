[package]
name = "matter_stack"
version = "0.2.0"
edition = "2021"
publish = false

[dependencies]
edge-nal = "=0.7.0"
embassy-futures = "=0.1.2"
embassy-sync = "=0.8.0"
embassy-time = "=0.5.1"
rand_chacha = "=0.10.0"
rand_core = "=0.10.1"
scopeguard = { version = "=1.2.0", default-features = false }
