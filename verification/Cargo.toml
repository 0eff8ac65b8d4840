[package]
name = "snake_cube"
version = "0.1.0"
edition = "2021"
publish = false

[dependencies]
getrandom = "0.2"
three-d = "0.17"
