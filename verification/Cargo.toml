[package]
name = "traitcast"
version = "0.5.0"
edition = "2021"

[dependencies]
anymap = "0.12"
inventory = "0.1"
lazy_static = "1"
