[package]
name = "rc_discovery"
version = "0.1.0"
edition = "2021"
publish = false

[dependencies]
cc = "1"
vswhom = "0.1"
winreg = "*"
