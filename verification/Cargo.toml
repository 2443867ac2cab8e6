[package]
name = "bbcode"
version = "1.0.0"
edition = "2021"
publish = false

[dependencies]
lazy_static = "1"
regex = "1"
