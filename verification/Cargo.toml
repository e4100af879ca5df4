[package]
name = "cargo_expand"
version = "0.1.0"
edition = "2021"
publish = false

[dependencies]
tempdir = "*"
