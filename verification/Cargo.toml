[package]
name = "serial_session"
version = "0.1.0"
edition = "2021"
publish = false

[dependencies]
hex = "*"
serialport = { version = "*", default-features = false }
