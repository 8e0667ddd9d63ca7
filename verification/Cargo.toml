[package]
name = "bricc"
version = "0.1.0"
edition = "2021"
publish = false

[dependencies]
hex = "0.4"
rand = "0.8"
rsip = "*"
embedded-graphics = "*"
embedded-text = "*"
profont = "*"
serde = "1"
serde_json = "1"
kv = "*"
