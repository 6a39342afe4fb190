[package]
name = "uish"
version = "0.1.0"
edition = "2021"
publish = false

[dependencies]
chrono = { version = "0.4", default-features = false, features = ["clock", "std"] }
cursive = { version = "0.20", default-features = false, features = ["crossterm-backend"] }
