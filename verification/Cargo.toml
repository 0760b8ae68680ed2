[package]
name = "sheatmap"
version = "0.1.0"
edition = "2021"
publish = false

[dependencies]
rstar = "*"
csv = "*"
clap = "*"
anyhow = "*"
log = "*"
env_logger = "*"
