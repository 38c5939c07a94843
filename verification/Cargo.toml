[package]
name = "character_behavior"
version = "0.1.0"
edition = "2021"
publish = false

[dependencies]
specs = { version = "*", default-features = false }
vek = "*"
