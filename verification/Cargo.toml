[package]
name = "thide"
version = "0.2.3"
edition = "2021"
publish = false

[dependencies]
ico = "0.3"
directories = "5"
