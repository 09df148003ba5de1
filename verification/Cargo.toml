[package]
name = "meta_aec3"
version = "0.1.0"
edition = "2021"
publish = false

[dependencies]
aec3 = "*"
