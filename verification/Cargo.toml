[package]
name = "uslm"
version = "0.1.0"
edition = "2021"
publish = false

[dependencies]
mime = "0.3"
url = "2"
winnow = "0.7"
