[package]
name = "env_sense"
version = "0.1.0"
edition = "2021"
publish = false

[dependencies]
embassy-sync = "0.8"
