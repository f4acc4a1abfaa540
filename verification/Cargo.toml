[package]
name = "is31fl3731"
version = "1.2.1"
edition = "2021"
publish = false

[dependencies]
embedded-hal = "1.0"
embedded-hal-async = "1.0"
