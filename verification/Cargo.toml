[package]
name = "rocket"
version = "0.1.0"
edition = "2021"
publish = false

[dependencies]
toml = "*"
git2 = { version = "*", default-features = false }
