[package]
name = "traceroute_rust"
version = "0.1.0"
edition = "2021"
publish = false

[dependencies]
pnet = "*"
rand = "0.8"
clap = "2"
dns-lookup = "*"
env_logger = "*"
log = "0.4"
