[package]
name = "fribidi"
version = "0.1.0"
edition = "2021"
publish = false

[dependencies]
widestring = "1"
