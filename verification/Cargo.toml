[package]
name = "rqcore"
version = "0.1.0"
edition = "2021"
publish = false

[dependencies]
raqote = { version = "*", default-features = false }
euclid = "0.22"
kurbo = "*"
