[package]
name = "cinder"
version = "0.1.0"
edition = "2021"
publish = false

[dependencies]
mira = "*"
