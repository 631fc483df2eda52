[package]
name = "si470x"
version = "0.1.0"
edition = "2021"
publish = false

[dependencies]
embedded-hal = "1.0"
embedded-hal-async = "1.0"
maybe-async = "0.2"
modular-bitfield-msb = "*"
