[package]
name = "buzzer"
version = "0.1.0"
edition = "2021"
publish = false

[dependencies]
esp-hal = "*"
