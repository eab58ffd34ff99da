[package]
name = "quickpeek"
version = "0.1.0"
edition = "2021"
publish = false

[dependencies]
gtk4 = "0.11"
