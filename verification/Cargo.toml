[package]
name = "quote_lib"
version = "0.1.0"
edition = "2021"
publish = false

[dependencies]
chrono = "0.4"
rand = "*"
crossbeam-channel = "0.5"
clap = "4"
env_logger = "*"
log = "0.4"
socket2 = "*"
thiserror = "*"
