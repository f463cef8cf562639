[package]
name = "lcd1602_rgb"
version = "0.1.0"
edition = "2021"
publish = false

[dependencies]
embedded-hal = "0.2.7"
