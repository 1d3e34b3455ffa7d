[package]
name = "mop"
version = "0.1.0"
edition = "2021"
publish = false

[dependencies]
id3 = "0.1"
clap = "2"
log = "0.3"
env_logger = "0.4"
chrono = "0.4"
