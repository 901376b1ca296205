[package]
name = "pup_logging"
version = "0.1.0"
edition = "2021"
publish = false

[dependencies]
dunce = "=1.0.5"
lazy_static = "=1.5.1"
time = "=0.1.45"
