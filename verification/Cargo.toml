[package]
name = "waypin"
version = "0.1.0"
edition = "2021"
publish = false

[dependencies]
gtk = "0.18"
