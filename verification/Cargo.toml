[package]
name = "serial_console"
version = "0.1.0"
edition = "2021"
publish = false

[dependencies]
clipboard = "=0.5.0"
crossterm = "=0.29.0"
serialport = { version = "=4.10.1", default-features = false }
