[package]
name = "eeprom24x"
version = "0.1.0"
edition = "2021"
publish = false

[dependencies]
embedded-hal = "*"
embedded-storage = "*"
