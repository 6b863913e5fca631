[package]
name = "exponent_lint"
version = "0.1.0"
edition = "2021"
publish = false

[dependencies]
termcolor = "=1.4.1"
