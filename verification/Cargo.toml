[package]
name = "netprobe"
version = "0.1.0"
edition = "2021"
publish = false

[dependencies]
anyhow = "1"
log = "0.4"
pnet = "*"
rand = "0.8"
thiserror = "1"
