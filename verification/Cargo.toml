[package]
name = "arrow2"
version = "0.1.0"
edition = "2021"
publish = false

[dependencies]
chrono = "0.4"
chrono-tz = "0.8"
lexical-core = "0.8"
strength_reduce = "0.2"
