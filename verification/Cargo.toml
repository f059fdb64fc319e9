[package]
name = "watchface"
version = "0.1.0"
edition = "2021"
publish = false

[dependencies]
chrono = "0.4"
embedded-graphics = "0.7"
embedded-layout = "0.2"
