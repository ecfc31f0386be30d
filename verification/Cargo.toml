[package]
name = "speki"
version = "0.1.0"
edition = "2021"
publish = false

[dependencies]
tui = { version = "0.19", default-features = false }
