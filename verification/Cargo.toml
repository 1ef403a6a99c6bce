[package]
name = "teleport"
version = "0.1.0"
edition = "2021"

[dependencies]
bitcoin = "0.32"
