[package]
name = "tz"
version = "0.1.0"
edition = "2021"
publish = false

[dependencies]
chrono = "0.4"
chrono-tz = "0.10"
clap = { version = "3.2", default-features = false, features = ["std"] }

[dev-dependencies]
regex = "1"
