[package]
name = "intercomm"
version = "0.1.0"
edition = "2021"
publish = false

[dependencies]
io-extras = "*"
ordered-float = "*"
rustix = { version = "*", features = ["fs", "pipe", "stdio"] }
