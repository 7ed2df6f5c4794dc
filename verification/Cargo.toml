[package]
name = "particlesimul"
version = "0.1.0"
edition = "2021"

[dependencies]
rand = "0.8"
ultraviolet = "0.9"
