[package]
name = "lufa_firmware"
version = "0.1.0"
edition = "2021"
publish = false

[dependencies]
avr-mcu = "*"
bindgen = "*"
panic-halt = "*"
