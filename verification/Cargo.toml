[package]
name = "sim7020"
version = "0.1.0"
edition = "2021"
publish = false

[dependencies]
at-commands = "*"
heapless = "*"
chrono = { version = "*", default-features = false }
embedded-io = "*"
embedded-io-async = "*"
embedded-hal = "*"
embedded-hal-async = "*"
embedded-nal = "*"
embedded-nal-async = "*"
