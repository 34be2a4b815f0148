[package]
name = "geogrid"
version = "0.1.0"
edition = "2021"
publish = false

[dependencies]
num = "=0.4.3"
obj-rs = { version = "*", default-features = false }
vek = { version = "=0.17.2", default-features = false, features = ["std"] }
