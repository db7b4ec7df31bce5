[package]
name = "context_bind"
version = "0.1.0"
edition = "2021"
publish = false

[dependencies]
context = "=1.0.1"
