[package]
name = "stash_core"
version = "0.1.0"
edition = "2021"
publish = false

[dependencies]
ore-rs = "=0.8.3"
ore-encoding-rs = "=0.23.3"
unicode-normalization = "=0.1.25"
