[package]
name = "faketime"
version = "0.2.1"
edition = "2021"
publish = false

[dependencies]
tempfile = "3"
js-sys = "0.3"
