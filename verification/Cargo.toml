[package]
name = "framepipe"
version = "0.1.0"
edition = "2021"
publish = false

[dependencies]
resvg = "*"
cairo-rs = "*"
pango = "*"
pangocairo = "*"
ezing = "*"
