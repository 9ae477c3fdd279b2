[package]
name = "audiotags"
version = "0.1.0"
edition = "2021"
publish = false

[dependencies]
oggvorbismeta = "*"

[dev-dependencies]
ogg = "*"
