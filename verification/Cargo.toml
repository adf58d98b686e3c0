[package]
name = "zerocal"
version = "0.1.0"
edition = "2021"
publish = false

[dependencies]
chrono = "0.4"
dateparser = "*"
humantime = "2"
icalendar = "*"
qrcode-generator = "*"
