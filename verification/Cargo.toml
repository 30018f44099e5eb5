[package]
name = "coop_futures"
version = "0.1.0"
edition = "2021"
publish = false

[dependencies]
anyhow = "*"
walrus = "=0.27.2"
futures-channel = "=0.3.34"
futures-util = "=0.3.34"
