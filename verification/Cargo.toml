[package]
name = "f103_hal"
version = "0.1.0"
edition = "2021"
publish = false

[dependencies]
stm32f103xx = { version = "0.11", default-features = false }
embedded-hal = "0.2"
nb = "0.1"
