[package]
name = "stargazer"
version = "0.1.0"
edition = "2021"
publish = false

[dependencies]
csv = "1"
chrono = "0.4"
hifitime = "3"
cgmath = "0.18"
