[package]
name = "fusionner"
version = "0.1.0"
edition = "2021"
publish = false

[dependencies]
regex = "1"
git2 = { version = "0.19", default-features = false }
