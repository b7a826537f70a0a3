[package]
name = "tailspin_config"
version = "0.1.0"
edition = "2021"
publish = false

[dependencies]
shellexpand = "3"
toml = "0.7"
