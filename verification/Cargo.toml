[package]
name = "takeable"
version = "0.1.0"
edition = "2021"
publish = false

[dependencies]
unreachable = "1.0"
