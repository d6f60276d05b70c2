[package]
name = "as5600"
version = "0.1.0"
edition = "2021"

[dependencies]
linux-embedded-hal = "0.3"
