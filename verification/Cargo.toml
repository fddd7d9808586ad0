[package]
name = "asteroids"
version = "0.1.0"
edition = "2021"
publish = false

[dependencies]
rand = "0.8"
svg = "*"
vek = "*"
euc = "0.5"
minifb = "0.25"
embedded-graphics = "0.8"
bitmap-font = "*"
rodio = { version = "0.17", default-features = false, features = ["wav"] }
