[package]
name = "udp_over_tcp"
version = "0.1.0"
edition = "2021"
publish = false

[dependencies]
tokio = { version = "*", features = ["rt-multi-thread", "macros", "net", "io-util"] }
log = "*"
env_logger = "*"
structopt = "*"
err-context = "*"
