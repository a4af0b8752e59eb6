[package]
name = "kime_xim"
version = "0.1.0"
edition = "2021"
publish = false

[dependencies]
ahash = "=0.8.12"
log = "=0.4.34"
x11rb = "=0.13.2"
xim = { version = "=0.5.0", features = ["x11rb-server"] }
fontdue = "=0.9.4"
font-loader = "=0.11.0"
