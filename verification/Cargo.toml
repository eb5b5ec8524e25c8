[package]
name = "symdiff"
version = "0.1.0"
edition = "2021"
publish = false

[dependencies]
futures = "0.1"
hyper = "0.11"
num-traits = "0.2"
rand = "0.4"
serde_urlencoded = "0.5"
