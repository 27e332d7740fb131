[package]
name = "expr_validation"
version = "0.1.0"
edition = "2021"
publish = false

[dependencies]
ra_syntax = "=0.1.0"
rustc-hash = "*"
