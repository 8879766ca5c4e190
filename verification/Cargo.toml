[package]
name = "serial_tcp_bridge"
version = "0.1.0"
edition = "2021"
publish = false

[dependencies]
clap = "*"
log = "*"
simple_logger = "*"
tokio = { version = "*", features = ["full"] }
tokio-serial = "*"
