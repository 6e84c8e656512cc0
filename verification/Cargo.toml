[package]
name = "source_dispatch"
version = "0.1.0"
edition = "2021"
publish = false

[dependencies]
obs-sys = "*"
paste = "1"
