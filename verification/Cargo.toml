[package]
name = "enum_matcher"
version = "0.1.0"
edition = "2021"
publish = false

[dependencies]
proc-macro2 = "=1.0.107"
quote = "=1.0.47"
syn = "=2.0.119"
