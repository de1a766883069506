[package]
name = "cycling_tracker"
version = "0.1.0"
edition = "2021"
publish = false

[dependencies]
argon2 = "*"
uuid7 = "*"
