[package]
name = "vintage"
version = "0.1.0"
edition = "2021"
publish = false

[dependencies]
aviutl2 = "*"
