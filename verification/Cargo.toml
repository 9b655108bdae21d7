[package]
name = "ruma_identifiers"
version = "0.1.0"
edition = "2021"
publish = false

[dependencies]
url = "1"
rand = "0.8"
serde = "1"
