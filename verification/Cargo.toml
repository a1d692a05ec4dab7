[package]
name = "solido_maintainer"
version = "0.1.0"
edition = "2021"
publish = false

[dependencies]
rand = "0.8"
tiny_http = "0.12"
num_cpus = "1"
