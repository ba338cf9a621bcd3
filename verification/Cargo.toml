[package]
name = "log_update"
version = "0.1.0"
edition = "2021"
publish = false

[dependencies]
ansi-escapes = "*"

[dev-dependencies]
tempfile = "*"
