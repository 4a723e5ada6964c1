[package]
name = "atmega32u4_hal"
version = "0.1.0"
edition = "2021"
publish = false

[dependencies]
atmega32u4 = "*"
embedded-hal = { version = "0.2", features = ["unproven"] }
