[package]
name = "staticserve"
version = "0.1.0"
edition = "2021"
publish = false

[dependencies]
mime_guess = "*"
notify = "*"
clap = { version = "*", features = ["derive"] }
