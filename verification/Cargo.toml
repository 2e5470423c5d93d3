[package]
name = "kiro_screen"
version = "0.1.0"
edition = "2021"
publish = false

[dependencies]
term_size = "0.3"
unicode-width = "0.1"
