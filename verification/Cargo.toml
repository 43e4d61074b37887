[package]
name = "ktools"
version = "0.1.0"
edition = "2021"
publish = false

[dependencies]
getopts = "0.2"
kafka = { version = "*", default-features = false }
prettytable-rs = { version = "*", default-features = false }
