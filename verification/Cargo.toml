[package]
name = "byte_arena"
version = "0.1.0"
edition = "2021"
publish = false

[dependencies]
bytes = "1"
typed-arena = "2"
