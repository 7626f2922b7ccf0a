[package]
name = "rdroidtest"
version = "0.1.0"
edition = "2021"
publish = false

[dependencies]
libtest-mimic = "*"
