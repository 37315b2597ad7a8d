[package]
name = "typographic_linter"
version = "0.1.0"
edition = "2021"
publish = false

[dependencies]
regex = "*"
serde = "*"
serde_derive = "*"
serde_json = "*"
