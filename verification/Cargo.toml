[package]
name = "stacks_parser"
version = "0.1.0"
edition = "2021"
publish = false

[dependencies]
nom = { version = "7", default-features = false }
