[package]
name = "gbc_m4"
version = "0.1.0"
edition = "2021"
publish = false

[dependencies]
itsybitsy_m4 = "*"
panic-halt = "*"
