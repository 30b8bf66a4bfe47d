[package]
name = "pagelayout"
version = "0.1.0"
edition = "2021"
publish = false

[dependencies]
syntect = "*"
cairo-rs = "*"
pango = "*"
pangocairo = "*"
