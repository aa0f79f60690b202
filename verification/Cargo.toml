[package]
name = "wildmon"
version = "0.1.0"
edition = "2021"
publish = false

[dependencies]
rand = "0.8"
once_cell = "1"
serde = "1"
serde_derive = "1"
serde_yaml = "0.9"
