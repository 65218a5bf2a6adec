[package]
name = "sheatmap"
version = "0.1.0"
edition = "2021"
publish = false

[dependencies]
rstar = "*"
anyhow = "1"
clap = "2"
csv = "1"
env_logger = "*"
flate2 = "1"
log = "0.4"
