[package]
name = "walkup_scan"
version = "0.1.0"
edition = "2021"
publish = false

[dependencies]
uuid = "*"
log = "*"
env_logger = "*"
signal-hook = "*"
yaserde = "*"
yaserde_derive = "*"
reqwest = { version = "*", default-features = false, features = ["blocking"] }
sendgrid = { version = "*", default-features = false, features = ["blocking", "rustls"] }
