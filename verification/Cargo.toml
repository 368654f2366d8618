[package]
name = "markdowner"
version = "0.1.0"
edition = "2021"
publish = false

[dependencies]
urlencoding = "*"
serde_json = "*"

[dev-dependencies]
tempfile = "*"
