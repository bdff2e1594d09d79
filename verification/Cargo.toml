[package]
name = "swatchdog"
version = "0.1.0"
edition = "2021"
publish = false

[dependencies]
anyhow = "*"
clap = { version = "*", features = ["derive"] }
ctrlc = "*"
flexi_logger = "*"
humantime = "*"
log = "*"
log-panics = "*"
parse_duration = "*"
pinger = "*"
reqwest = { version = "*", default-features = false, features = ["blocking", "rustls-tls"] }
sysinfo = "*"
url = "*"
