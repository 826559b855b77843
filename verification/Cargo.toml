[package]
name = "seven_segment"
version = "0.3.0"
edition = "2021"
publish = false

[dependencies]
embedded-hal = "0.2"
