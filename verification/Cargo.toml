[package]
name = "srs"
version = "0.1.0"
edition = "2021"
publish = false

[dependencies]
cpal = "*"
docopt = "*"
opus = "*"
quest = "*"
scrap = "*"
serde = "*"
serde_derive = "*"
vpx-sys = "*"
webm = "*"
