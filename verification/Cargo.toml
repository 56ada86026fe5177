[package]
name = "lace"
version = "0.1.0"
edition = "2021"
publish = false

[dependencies]
arm-pl011-uart = "*"
tock-registers = "*"
