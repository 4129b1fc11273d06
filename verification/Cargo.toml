[package]
name = "growbot"
version = "0.1.0"
edition = "2021"
publish = false

[dependencies]
byteorder = "1"
regex = "1"
serde_json = "1"
urlencoding = "2"
ureq = "2"
rusty_enet = "*"
socks = "0.3"
