[package]
name = "templo"
version = "0.1.0"
edition = "2021"
publish = false

[dependencies]
home = "0.5"
regex = "1"
serde = "1"
serde_derive = "1"
serde_json = "1"
