[package]
name = "iced_taffy"
version = "0.1.0"
edition = "2021"
publish = false

[dependencies]
iced_native = "0.10"
taffy = "0.5"
