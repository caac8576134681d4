[package]
name = "bell_server"
version = "0.1.0"
edition = "2021"
publish = false

[dependencies]
md5 = "*"
clap = { version = "*", features = ["env"] }
log = "*"
pretty_env_logger = "*"
serialport = { version = "*", default-features = false }
