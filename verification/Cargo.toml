[package]
name = "rsdiskspeed"
version = "0.1.0"
edition = "2021"
publish = false

[dependencies]
rand = "0.8"
clap = "*"
indicatif = "*"
log = "*"
pretty_env_logger = "*"
time = "*"
