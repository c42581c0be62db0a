[package]
name = "sd2405al"
version = "0.1.0"
edition = "2021"
publish = false

[dependencies]
embedded-hal = "0.2"
rtcc = "0.2"

[dev-dependencies]
embedded-hal-mock = "0.7"
