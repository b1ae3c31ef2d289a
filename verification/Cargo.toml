[package]
name = "bingen"
version = "0.1.0"
edition = "2021"
publish = false

[dependencies]
syn = "1"
tempfile = "3"
which = "4"
