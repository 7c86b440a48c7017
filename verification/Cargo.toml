[package]
name = "seal_extract"
version = "0.1.0"
edition = "2021"
publish = false

[dependencies]
archive = "1.0.0"
